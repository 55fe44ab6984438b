use prayterm::{Color, NopColor, Rgb};

#[test]
fn every_named_color_resolves_to_itself() {
    let named = [
        Color::Reset,
        Color::Black,
        Color::DarkGrey,
        Color::Red,
        Color::DarkRed,
        Color::Green,
        Color::DarkGreen,
        Color::Yellow,
        Color::DarkYellow,
        Color::Blue,
        Color::DarkBlue,
        Color::Magenta,
        Color::DarkMagenta,
        Color::Cyan,
        Color::DarkCyan,
        Color::White,
        Color::Grey,
    ];
    for color in named {
        assert_eq!(color.nop(), color);
    }
    for (i, a) in named.iter().enumerate() {
        for (j, b) in named.iter().enumerate() {
            assert_eq!(a.nop() == b.nop(), i == j);
        }
    }
}

#[test]
fn palette_and_rgb_colors_resolve_to_themselves() {
    for v in 0..=u8::MAX {
        assert_eq!(Color::AnsiValue(v).nop(), Color::AnsiValue(v));
    }
    assert_eq!(Color::Rgb { r: 1, g: 2, b: 3 }.nop(), Color::Rgb { r: 1, g: 2, b: 3 });
}

#[test]
fn rgb_resolves_to_its_channels_in_order() {
    assert_eq!(Rgb(240, 192, 32).nop(), Color::Rgb { r: 240, g: 192, b: 32 });
    assert_eq!(Rgb(240, 32, 192).nop(), Color::Rgb { r: 240, g: 32, b: 192 });
    assert_eq!(Rgb(0, 0, 0).nop(), Color::Rgb { r: 0, g: 0, b: 0 });
    assert_eq!(Rgb(255, 255, 255).nop(), Color::Rgb { r: 255, g: 255, b: 255 });
    assert_ne!(Rgb(1, 2, 3).nop(), Rgb(3, 2, 1).nop());
    assert_ne!(Rgb(0, 0, 0).nop(), Color::Black);
}

#[test]
fn every_rgb_triple_resolves() {
    for r in 0..=u8::MAX {
        for g in 0..=u8::MAX {
            for b in 0..=u8::MAX {
                assert!(Rgb(r, g, b).nop() == Color::Rgb { r, g, b });
            }
        }
    }
}

#[test]
fn rgb_is_a_plain_value() {
    let a = Rgb(7, 8, 9);
    let b = a;
    assert_eq!(a, b);
    assert_eq!((a.0, a.1, a.2), (7, 8, 9));
    assert_eq!(format!("{:?}", a.clone()), "Rgb(7, 8, 9)");
}
