use fractal_view::controls::Color;
use fractal_view::controls::Fractals;
use fractal_view::controls::Controls;
use fractal_view::controls::Message;
use fractal_view::controls::ONE_BITS;
use fractal_view::controls::color_hex;

#[test]
fn fractal_ids_are_distinct_bits() {
    assert_eq!(Fractals::Mandelbrot.id(), 1);
    assert_eq!(Fractals::BurningShip.id(), 2);
    assert_eq!(Fractals::Tricorn.id(), 4);
    assert_eq!(Fractals::Feather.id(), 8);
    assert_eq!(Fractals::Eye.id(), 16);
}

#[test]
fn fractal_from_id_inverts_id() {
    for f in [
        Fractals::Mandelbrot,
        Fractals::BurningShip,
        Fractals::Tricorn,
        Fractals::Feather,
        Fractals::Eye,
    ] {
        assert_eq!(Fractals::from_id(f.id()), Some(f));
    }
    assert_eq!(Fractals::from_id(0), None);
    assert_eq!(Fractals::from_id(5), None);
    assert_eq!(Fractals::from_id(32), None);
}

#[test]
fn fractal_display_names() {
    assert_eq!(Fractals::Mandelbrot.display_name(), "Mandelbrot set");
    assert_eq!(Fractals::BurningShip.display_name(), "Burning ship");
    assert_eq!(Fractals::Tricorn.display_name(), "Tricorn");
    assert_eq!(Fractals::Feather.display_name(), "Feather");
    assert_eq!(Fractals::Eye.display_name(), "Eye");
}

#[test]
fn default_fractal_is_mandelbrot() {
    assert_eq!(Fractals::default(), Fractals::Mandelbrot);
}

#[test]
fn color_hex_formats_channels() {
    assert_eq!(color_hex(255, 0, 255, 128), "#ff00ff80");
    assert_eq!(color_hex(85, 205, 252, 255), "#55cdfcff");
    assert_eq!(color_hex(0, 0, 0, 0), "#00000000");
    assert_eq!(color_hex(171, 205, 239, 1), "#abcdef01");
}

#[test]
fn colors_raw_flattens_in_order() {
    let mut config = Controls::new();
    config.colors = vec![
        Color { r_bits: 1, g_bits: 2, b_bits: 3, a_bits: 4 },
        Color { r_bits: 5, g_bits: 6, b_bits: 7, a_bits: 8 },
    ];
    assert_eq!(config.get_colors_raw(), vec![1, 2, 3, 4, 5, 6, 7, 8]);
}

#[test]
fn new_controls_defaults() {
    let c = Controls::new();
    assert!(!c.ui_open);
    assert_eq!(c.current_fractal, Fractals::Mandelbrot);
    assert_eq!(c.num_iters, 1000);
    assert_eq!(c.num_colors, 200);
    assert_eq!(c.msaa, 1);
    assert!(!c.smooth_enabled);
    assert!(!c.editing_color);
}

#[test]
fn startup_palette_matches_float_channels() {
    let c = Controls::new();
    let blue = Color {
        r_bits: (85.0f32 / 255.0).to_bits(),
        g_bits: (205.0f32 / 255.0).to_bits(),
        b_bits: (252.0f32 / 255.0).to_bits(),
        a_bits: 1.0f32.to_bits(),
    };
    let pink = Color {
        r_bits: (247.0f32 / 255.0).to_bits(),
        g_bits: (168.0f32 / 255.0).to_bits(),
        b_bits: (184.0f32 / 255.0).to_bits(),
        a_bits: 1.0f32.to_bits(),
    };
    let white = Color {
        r_bits: 1.0f32.to_bits(),
        g_bits: 1.0f32.to_bits(),
        b_bits: 1.0f32.to_bits(),
        a_bits: 1.0f32.to_bits(),
    };
    assert_eq!(c.colors, vec![blue, pink, white, pink, blue]);
}

#[test]
fn update_moves_sliders_and_toggles() {
    let mut c = Controls::new();
    c.update(Message::ToggleUi);
    assert!(c.ui_open);
    c.update(Message::ToggleUi);
    assert!(!c.ui_open);
    c.update(Message::ChangeFractal(Fractals::Feather));
    assert_eq!(c.current_fractal, Fractals::Feather);
    c.update(Message::NumColorsChanged(42));
    assert_eq!(c.num_colors, 42);
    c.update(Message::NumItersChanged(77));
    assert_eq!(c.num_iters, 77);
    c.update(Message::ToggleSmooth(true));
    assert!(c.smooth_enabled);
    c.update(Message::MsaaChanged(8));
    assert_eq!(c.msaa, 8);
}

#[test]
fn update_edits_the_palette() {
    let red = Color { r_bits: ONE_BITS, g_bits: 0, b_bits: 0, a_bits: ONE_BITS };
    let mut c = Controls::new();
    c.colors = vec![red, red];
    c.update(Message::ColorAdd);
    assert_eq!(c.colors.len(), 3);
    let white = Color { r_bits: ONE_BITS, g_bits: ONE_BITS, b_bits: ONE_BITS, a_bits: ONE_BITS };
    assert_eq!(c.colors[2], white);
    c.update(Message::OpenColorPicker(1));
    assert!(c.editing_color);
    assert_eq!(c.color_editing_index, 1);
    let blue = Color { r_bits: 0, g_bits: 0, b_bits: ONE_BITS, a_bits: ONE_BITS };
    c.update(Message::SubmitColor(blue));
    assert!(!c.editing_color);
    assert_eq!(c.colors[1], blue);
    c.update(Message::OpenColorPicker(0));
    c.update(Message::CancelColor);
    assert!(!c.editing_color);
    assert_eq!(c.colors[0], red);
    c.update(Message::ColorRemove(0));
    assert_eq!(c.colors, vec![blue, white]);
}
