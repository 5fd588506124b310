use threemf2::domain::displacement::{ChannelName, Filter, TileStyle};

#[test]
fn channel_name_default_is_g() {
    assert_eq!(ChannelName::default(), ChannelName::G);
}

#[test]
fn channel_name_from_string_r() {
    assert_eq!(ChannelName::from(String::from("R")), ChannelName::R);
}

#[test]
fn channel_name_from_string_g() {
    assert_eq!(ChannelName::from(String::from("G")), ChannelName::G);
}

#[test]
fn channel_name_from_string_b() {
    assert_eq!(ChannelName::from(String::from("B")), ChannelName::B);
}

#[test]
fn channel_name_from_string_a() {
    assert_eq!(ChannelName::from(String::from("A")), ChannelName::A);
}

#[test]
fn channel_name_from_unknown_defaults_to_g() {
    assert_eq!(ChannelName::from(String::from("X")), ChannelName::G);
}

#[test]
fn tile_style_default_is_wrap() {
    assert_eq!(TileStyle::default(), TileStyle::Wrap);
}

#[test]
fn tile_style_from_string_wrap() {
    assert_eq!(TileStyle::from(String::from("wrap")), TileStyle::Wrap);
}

#[test]
fn tile_style_from_string_mirror() {
    assert_eq!(TileStyle::from(String::from("mirror")), TileStyle::Mirror);
}

#[test]
fn tile_style_from_string_clamp() {
    assert_eq!(TileStyle::from(String::from("clamp")), TileStyle::Clamp);
}

#[test]
fn tile_style_from_string_none() {
    assert_eq!(TileStyle::from(String::from("none")), TileStyle::NoTiling);
}

#[test]
fn tile_style_from_uppercase() {
    assert_eq!(TileStyle::from(String::from("MIRROR")), TileStyle::Mirror);
}

#[test]
fn tile_style_from_unknown_defaults_to_wrap() {
    assert_eq!(TileStyle::from(String::from("invalid")), TileStyle::Wrap);
}

#[test]
fn displacement_filter_default_is_auto() {
    assert_eq!(Filter::default(), Filter::Auto);
}

#[test]
fn displacement_filter_from_string_auto() {
    assert_eq!(Filter::from(String::from("auto")), Filter::Auto);
}

#[test]
fn displacement_filter_from_string_linear() {
    assert_eq!(Filter::from(String::from("linear")), Filter::Linear);
}

#[test]
fn displacement_filter_from_string_nearest() {
    assert_eq!(Filter::from(String::from("nearest")), Filter::Nearest);
}

#[test]
fn displacement_filter_from_uppercase() {
    assert_eq!(Filter::from(String::from("LINEAR")), Filter::Linear);
}

#[test]
fn displacement_filter_from_unknown_defaults_to_auto() {
    assert_eq!(Filter::from(String::from("invalid")), Filter::Auto);
}
