use wheel_spin::color::{convert_hex, hex_digit, Color};

fn opaque(r: u8, g: u8, b: u8) -> Color {
    Color::Rgba { r, g, b, a: 255 }
}

#[test]
fn hex_with_hash_gives_opaque_rgb() {
    assert_eq!(convert_hex("#fb2646"), opaque(251, 38, 70));
}

#[test]
fn hex_without_hash_gives_opaque_rgb() {
    assert_eq!(convert_hex("0077ff"), opaque(0, 119, 255));
}

#[test]
fn hex_digits_may_be_upper_case() {
    assert_eq!(convert_hex("#FB2646"), opaque(251, 38, 70));
    assert_eq!(convert_hex("aBcDeF"), opaque(0xab, 0xcd, 0xef));
}

#[test]
fn hex_extremes() {
    assert_eq!(convert_hex("#000000"), opaque(0, 0, 0));
    assert_eq!(convert_hex("#ffffff"), opaque(255, 255, 255));
    assert_eq!(convert_hex("#0f10f0"), opaque(15, 16, 240));
}

#[test]
fn letters_that_are_no_hex_digits_give_pink() {
    assert_eq!(convert_hex("zz00zz"), Color::Pink);
    assert_eq!(convert_hex("#gg0000"), Color::Pink);
    assert_eq!(convert_hex("#00000g"), Color::Pink);
}

#[test]
fn wrong_length_gives_pink() {
    assert_eq!(convert_hex("fff"), Color::Pink);
    assert_eq!(convert_hex("#fff"), Color::Pink);
    assert_eq!(convert_hex("#fb26461"), Color::Pink);
    assert_eq!(convert_hex("fb264"), Color::Pink);
    assert_eq!(convert_hex(""), Color::Pink);
    assert_eq!(convert_hex("#"), Color::Pink);
}

#[test]
fn only_one_hash_is_stripped() {
    assert_eq!(convert_hex("##fb2646"), Color::Pink);
    assert_eq!(convert_hex("##b2646"), Color::Pink);
    assert_eq!(convert_hex("fb2646#"), Color::Pink);
}

#[test]
fn a_sign_is_no_hex_digit() {
    assert_eq!(convert_hex("+f+f+f"), Color::Pink);
    assert_eq!(convert_hex("#-10000"), Color::Pink);
}

#[test]
fn other_scripts_give_pink() {
    assert_eq!(convert_hex("#ééé"), Color::Pink);
    assert_eq!(convert_hex("١٢٣٤٥٦"), Color::Pink);
    assert_eq!(convert_hex("#fb264６"), Color::Pink);
}

#[test]
fn a_real_pink_is_not_the_sentinel() {
    assert_ne!(convert_hex("#ff6dc2"), Color::Pink);
    assert_eq!(convert_hex("#ff6dc2"), opaque(255, 109, 194));
}

#[test]
fn hex_digit_values() {
    assert_eq!(hex_digit('0'), Some(0));
    assert_eq!(hex_digit('9'), Some(9));
    assert_eq!(hex_digit('a'), Some(10));
    assert_eq!(hex_digit('f'), Some(15));
    assert_eq!(hex_digit('A'), Some(10));
    assert_eq!(hex_digit('F'), Some(15));
    assert_eq!(hex_digit('g'), None);
    assert_eq!(hex_digit('G'), None);
    assert_eq!(hex_digit('/'), None);
    assert_eq!(hex_digit(':'), None);
    assert_eq!(hex_digit('@'), None);
    assert_eq!(hex_digit('`'), None);
    assert_eq!(hex_digit('#'), None);
}
