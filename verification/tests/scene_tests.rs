use fractal_view::controls::Color;
use fractal_view::controls::Fractals;
use fractal_view::controls::Controls;
use fractal_view::scene::CameraWords;
use fractal_view::scene::ConfigError;
use fractal_view::scene::ShaderDataUniforms;
use fractal_view::scene::SizeMismatchError;
use fractal_view::scene::pack_fractal_bits;
use fractal_view::scene::pack_frame;
use fractal_view::scene::pack_palette;
use fractal_view::scene::unpack_fractal_bits;
use fractal_view::scene::unpack_palette;
use fractal_view::scene::validate_upload;

fn color(seed: u32) -> Color {
    Color {
        r_bits: seed,
        g_bits: seed.wrapping_mul(3).wrapping_add(1),
        b_bits: seed.wrapping_mul(5).wrapping_add(2),
        a_bits: seed.wrapping_mul(7).wrapping_add(3),
    }
}

fn config_with_palette(n: usize) -> Controls {
    let mut config = Controls::new();
    config.colors = (0..n as u32).map(color).collect();
    config.num_colors = n as u32;
    config
}

#[test]
fn uniform_word_order_is_the_shader_contract() {
    let u = ShaderDataUniforms {
        position: [11, 22],
        resolution: [800, 600],
        aspect: 33,
        zoom: 44,
        arr_len: 5,
        fractal: 16,
        max_iter: 1000,
        num_colors: 5,
        msaa: 4,
    };
    let words = u.to_uniform_data();
    assert_eq!(words, [11, 22, 800, 600, 33, 0, 44, 5, 16, 1000, 5, 4]);
}

#[test]
fn uniform_round_trip_recovers_every_field() {
    let u = ShaderDataUniforms {
        position: [0x3f80_0000, 0xbf80_0000],
        resolution: [1024, 768],
        aspect: 0x3faa_aaab,
        zoom: 0x43fa_0000,
        arr_len: 64,
        fractal: 0x8000_0001,
        max_iter: 2000,
        num_colors: 200,
        msaa: 8,
    };
    let words = u.to_uniform_data();
    let back = ShaderDataUniforms::from_uniform_data(&words);
    assert_eq!(back, u);
}

#[test]
fn palette_round_trip_length_one() {
    let config = config_with_palette(1);
    let packed = pack_palette(&config).unwrap();
    assert_eq!(packed.len(), 4);
    let back = unpack_palette(&packed);
    assert_eq!(back, config.colors);
}

#[test]
fn palette_round_trip_length_five() {
    let config = config_with_palette(5);
    let packed = pack_palette(&config).unwrap();
    assert_eq!(packed.len(), 20);
    let back = unpack_palette(&packed);
    assert_eq!(back, config.colors);
}

#[test]
fn palette_round_trip_length_sixty_four() {
    let config = config_with_palette(64);
    let packed = pack_palette(&config).unwrap();
    assert_eq!(packed.len(), 256);
    let back = unpack_palette(&packed);
    assert_eq!(back, config.colors);
}

#[test]
fn palette_zero_padded_beyond_num_colors() {
    let mut config = config_with_palette(5);
    config.num_colors = 2;
    let packed = pack_palette(&config).unwrap();
    assert_eq!(packed.len(), 20);
    let back = unpack_palette(&packed);
    assert_eq!(back[0], config.colors[0]);
    assert_eq!(back[1], config.colors[1]);
    for c in &back[2..] {
        assert_eq!(
            *c,
            Color { r_bits: 0, g_bits: 0, b_bits: 0, a_bits: 0 }
        );
    }
}

#[test]
fn packing_rejects_num_colors_over_palette_length() {
    let mut config = config_with_palette(3);
    config.num_colors = 5;
    let err = pack_palette(&config).unwrap_err();
    assert_eq!(err, ConfigError { num_colors: 5, palette_len: 3 });
    let cam = CameraWords { pos_x_bits: 0, pos_y_bits: 0, zoom_bits: 0, aspect_bits: 0 };
    let frame = pack_frame(&cam, &config, 800, 600);
    assert_eq!(frame.unwrap_err(), ConfigError { num_colors: 5, palette_len: 3 });
}

#[test]
fn pack_frame_lays_out_camera_and_config() {
    let mut config = config_with_palette(5);
    config.current_fractal = Fractals::Eye;
    config.smooth_enabled = true;
    config.num_iters = 1234;
    config.msaa = 4;
    let cam = CameraWords {
        pos_x_bits: 0x3e4c_cccd,
        pos_y_bits: 0x3d75_c28f,
        zoom_bits: 0x43d8_1c28,
        aspect_bits: 0x3faa_aaab,
    };
    let fd = pack_frame(&cam, &config, 800, 600).unwrap();
    assert_eq!(
        fd.uniform,
        [
            0x3e4c_cccd,
            0x3d75_c28f,
            800,
            600,
            0x3faa_aaab,
            0,
            0x43d8_1c28,
            5,
            16 | 0x8000_0000,
            1234,
            5,
            4,
        ]
    );
    assert_eq!(fd.palette.len(), 20);
}

#[test]
fn fractal_bits_pack_and_unpack() {
    let all = [
        Fractals::Mandelbrot,
        Fractals::BurningShip,
        Fractals::Tricorn,
        Fractals::Feather,
        Fractals::Eye,
    ];
    let ids = [1u32, 2, 4, 8, 16];
    for (f, id) in all.iter().zip(ids.iter()) {
        assert_eq!(pack_fractal_bits(*f, false), *id);
        assert_eq!(pack_fractal_bits(*f, true), *id | 0x8000_0000);
        assert_eq!(unpack_fractal_bits(*id), Some((*f, false)));
        assert_eq!(unpack_fractal_bits(*id | 0x8000_0000), Some((*f, true)));
    }
    assert_eq!(unpack_fractal_bits(3), None);
    assert_eq!(unpack_fractal_bits(0), None);
}

#[test]
fn upload_bytes_are_four_per_word() {
    let config = config_with_palette(5);
    let cam = CameraWords { pos_x_bits: 1, pos_y_bits: 2, zoom_bits: 3, aspect_bits: 4 };
    let fd = pack_frame(&cam, &config, 800, 600).unwrap();
    assert_eq!(fd.uniform_bytes().len(), 48);
    assert_eq!(fd.palette_bytes().len(), 80);
}

#[test]
fn upload_bytes_are_little_endian_words() {
    let config = config_with_palette(2);
    let cam = CameraWords {
        pos_x_bits: 0x0102_0304,
        pos_y_bits: 0xa1b2_c3d4,
        zoom_bits: 0x0000_00ff,
        aspect_bits: 0xff00_0000,
    };
    let fd = pack_frame(&cam, &config, 800, 600).unwrap();
    let expected: Vec<u8> = fd.uniform.iter().flat_map(|w| w.to_le_bytes()).collect();
    assert_eq!(fd.uniform_bytes(), expected);
    assert_eq!(&fd.uniform_bytes()[0..4], &[0x04, 0x03, 0x02, 0x01]);
    let expected: Vec<u8> = fd.palette.iter().flat_map(|w| w.to_le_bytes()).collect();
    assert_eq!(fd.palette_bytes(), expected);
}

#[test]
fn upload_bytes_agree_with_pod_cast() {
    // The upload serialization must lay words out exactly as a plain
    // memory cast of the word array does on this little-endian target.
    let config = config_with_palette(7);
    let cam = CameraWords {
        pos_x_bits: 0xdead_beef,
        pos_y_bits: 0x1234_5678,
        zoom_bits: 0x9abc_def0,
        aspect_bits: 0x0f0f_f0f0,
    };
    let fd = pack_frame(&cam, &config, 1024, 768).unwrap();
    assert_eq!(fd.uniform_bytes(), bytemuck::cast_slice::<u32, u8>(&fd.uniform).to_vec());
    assert_eq!(fd.palette_bytes(), bytemuck::cast_slice::<u32, u8>(&fd.palette).to_vec());
}

#[test]
fn upload_size_must_match_region_exactly() {
    let data: Vec<u8> = vec![0; 48];
    assert!(validate_upload(&data, 48).is_ok());
    let err = validate_upload(&data, 1024).unwrap_err();
    assert_eq!(err, SizeMismatchError { region_bytes: 1024, data_bytes: 48 });
}
