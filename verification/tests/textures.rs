use std::sync::Arc;

use toy_ray_tracer::textures::image_texture::{texel_index, MipMap};
use toy_ray_tracer::textures::noise::{perlin_generate_perm, permute, permute_with_draws, Perlin};
use toy_ray_tracer::textures::{CheckerTexture, ConstantTexture, ImageTexture, ImageTextureData, ImageTextureParams};

#[derive(Clone, Copy, Debug, PartialEq)]
struct Gray(f32);

impl ImageTextureData<f32> for Gray {
    fn scaled(self, factor: f32) -> Self {
        Gray(self.0 * factor)
    }

    fn scale(&mut self, factor: &f32) {
        self.0 *= *factor;
    }
}

#[test]
fn image_rows_are_flipped_and_scaled() {
    // 2 columns, 3 rows, top row first
    let data: Vec<Gray> = (0..6).map(|v| Gray(v as f32)).collect();
    let tex = ImageTexture::new(2, 3, data.clone(), ImageTextureParams { scale: 2.0, flip: true });
    let got: Vec<f32> = (0..3).flat_map(|j| (0..2).map(move |i| (i, j))).map(|(i, j)| tex.texel(i, j).0).collect();
    assert_eq!(got, vec![8.0, 10.0, 4.0, 6.0, 0.0, 2.0]);
    let kept = ImageTexture::new(2, 3, data, ImageTextureParams { scale: 1.0, flip: false });
    assert_eq!(kept.texel(1, 0).0, 1.0);
}

#[test]
fn texel_lookup_clamps_to_the_image() {
    let m = MipMap::new(3, 2, vec![1, 2, 3, 4, 5, 6]);
    assert_eq!(m.get_value(0, 0), 1);
    assert_eq!(m.get_value(2, 1), 6);
    assert_eq!(m.get_value(9, 0), 3);
    assert_eq!(m.get_value(1, 9), 5);
    assert_eq!(texel_index(7, 7, 3, 2), 5);
}

#[test]
fn checker_and_constant_textures() {
    let c = ConstantTexture::new([0.2f32, 0.3, 0.1]);
    assert_eq!(c.evaluate(), [0.2, 0.3, 0.1]);
    let checker = CheckerTexture::new(Arc::new(1u8), Arc::new(2u8));
    assert_eq!(*checker.select(true), 1);
    assert_eq!(*checker.select(false), 2);
}

#[test]
fn perlin_permutation_holds_each_index_once() {
    let p = perlin_generate_perm();
    assert_eq!(p.len(), 256);
    let mut sorted = p.clone();
    sorted.sort();
    assert_eq!(sorted, (0..256).collect::<Vec<usize>>());
}

#[test]
fn permute_rearranges_only_the_prefix() {
    let mut v: Vec<usize> = (0..10).collect();
    permute(&mut v, 4);
    assert_eq!(&v[4..], &[4, 5, 6, 7, 8, 9]);
    let mut head = v[..4].to_vec();
    head.sort();
    assert_eq!(head, vec![0, 1, 2, 3]);
}

#[test]
fn lattice_gradients_come_from_the_hashed_table() {
    let perlin = Perlin::new((0..256).map(|i| i as u32).collect());
    let g = perlin.gradient_at(3, 300, 5);
    assert!(g < 256);
    let c = perlin.corner_gradients(3, 44, 5);
    assert_eq!(c[0][1][0], perlin.gradient_at(3, 45, 5));
    assert_eq!(c[1][1][1], perlin.gradient_at(4, 45, 6));
    // coordinates wrap around modulo 256
    assert_eq!(perlin.gradient_at(1, 2, 3), perlin.gradient_at(257, 258, 259));
}

#[test]
fn shuffle_steps_follow_the_draws() {
    // steps from the back: swap(3, 1), swap(2, 2), swap(1, 0), swap(0, 0)
    let mut v: Vec<usize> = vec![10, 11, 12, 13, 14];
    permute_with_draws(&mut v, &vec![0, 0, 2, 1]);
    assert_eq!(v, vec![13, 10, 12, 11, 14]);
}
