use clipboard::Blackletter;
use clipboard::FullWidth;
use clipboard::Mono;
use clipboard::Smol;
use clipboard::Lookup;
use clipboard::Translate;

#[test]
fn blackletter_regular() {
    let t = Blackletter::new(false);

    assert_eq!(t.translate("Abc!"), "\u{1D504}\u{1D51F}\u{1D520}!");
}

#[test]
fn blackletter_bold() {
    let t = Blackletter::new(true);

    assert_eq!(t.translate("Az"), "\u{1D56C}\u{1D59F}");
}

#[test]
fn full_width_translation() {
    let t: FullWidth = Default::default();

    assert_eq!(t.translate("Az ~\u{E9}"), "\u{FF21}\u{FF5A}\u{2002}\u{FF5E}\u{E9}");
}

#[test]
fn full_width_sub_squeezes_punctuation() {
    let t: FullWidth = Default::default();

    assert_eq!(t.sub("Hello, world! Yes."), "Hello,world!Yes.");
    assert_eq!(t.sub("a ( b ) c"), "a( b )c");
    assert_eq!(t.sub("x [1] {2}"), "x[1]{2}");
}

#[test]
fn translation_of_empty_string_is_empty() {
    let t: Mono = Default::default();

    assert_eq!(t.translate(""), "");
}

#[test]
fn lookup_table_is_exposed() {
    let t: FullWidth = Default::default();
    let m = t.lookup();

    assert_eq!(m.get(&(b'A' as u32)), Some(&'\u{FF21}'));
    assert_eq!(m.get(&0x1F30D_u32), None);
}

#[test]
fn mono_translation() {
    let t: Mono = Default::default();

    assert_eq!(t.translate("a0 Z?"), "\u{1D68A}\u{1D7F6}\u{2002}\u{1D689}?");
}

#[test]
fn smol_translation() {
    let t: Smol = Default::default();

    assert_eq!(t.translate("aA xX"), "\u{1D00}\u{1D00} \u{1D605}\u{1D605}");
}
