//! Tests of the colour-entry and scheme encodings.

use lscoltui::colours::{ColourEntry, Effects, TerminalColour};
use lscoltui::scheme::LsColours;
use lscoltui::store::env_command;

#[test]
fn entry_effect_only_has_no_separator() {
    assert_eq!(ColourEntry::new(Effects::Default, None, None).parse(), "00");
    assert_eq!(ColourEntry::new(Effects::Bold, None, None).parse(), "01");
    assert_eq!(ColourEntry::new(Effects::Underline, None, None).parse(), "04");
    assert_eq!(ColourEntry::new(Effects::Italic, None, None).parse(), "03");
    assert_eq!(
        ColourEntry::new(Effects::Strikethrough, None, None).parse(),
        "09"
    );
}

#[test]
fn entry_with_foreground() {
    assert_eq!(
        ColourEntry::new(Effects::Default, Some(TerminalColour::White), None).parse(),
        "00;97"
    );
    assert_eq!(
        ColourEntry::new(Effects::Bold, Some(TerminalColour::Black), None).parse(),
        "01;30"
    );
}

#[test]
fn entry_with_foreground_and_background() {
    assert_eq!(
        ColourEntry::new(
            Effects::Bold,
            Some(TerminalColour::Blue),
            Some(TerminalColour::Black)
        )
        .parse(),
        "01;34;40"
    );
}

#[test]
fn entry_with_background_only_uses_shifted_code() {
    assert_eq!(
        ColourEntry::new(Effects::Default, None, Some(TerminalColour::DarkGray)).parse(),
        "00;100"
    );
    assert_eq!(
        ColourEntry::new(Effects::Default, None, Some(TerminalColour::White)).parse(),
        "00;107"
    );
}

#[test]
fn default_scheme_encoding_starts_with_fixed_codes() {
    let encoded = LsColours::default().parse();
    assert!(encoded.starts_with("no=00;97:rs=00;97:fi=00;94:di=01;34:"));
}

#[test]
fn default_scheme_encoding_is_complete() {
    let encoded = LsColours::default().parse();
    assert_eq!(
        encoded,
        "no=00;97:rs=00;97:fi=00;94:di=01;34:ln=00;37:pi=00;95:do=00;35:bd=00;93:\
         cd=01;93:or=00;31:so=01;33:su=00;34:sg=00;34:tw=00;34:ow=00;94:st=01;94:\
         ex=00;32:mi=00;31"
    );
}

#[test]
fn no_extensions_means_no_star_segment() {
    let encoded = LsColours::default().parse();
    assert!(!encoded.contains('*'));
    assert!(!encoded.ends_with(':'));
}

#[test]
fn txt_extension_appends_star_segment() {
    let mut scheme = LsColours::default();
    let without = scheme.parse();
    scheme
        .extensions
        .push(("txt".to_string(), ColourEntry::new(Effects::Default, None, None)));
    let with = scheme.parse();
    assert_eq!(with, format!("{}:*txt=00", without));
    assert!(with.ends_with(":*txt=00"));
}

#[test]
fn extensions_keep_their_order() {
    let mut scheme = LsColours::default();
    scheme.extensions.push((
        "rs".to_string(),
        ColourEntry::new(Effects::Bold, Some(TerminalColour::Orange), None),
    ));
    scheme
        .extensions
        .push(("txt".to_string(), ColourEntry::new(Effects::Default, None, None)));
    let encoded = scheme.parse();
    assert!(encoded.ends_with(":*rs=01;33:*txt=00"));
}

#[test]
fn env_command_wraps_encoding_in_shell_line() {
    let scheme = LsColours::default();
    assert_eq!(
        env_command(&scheme),
        format!("export LS_COLORS='{}'", scheme.parse())
    );
}
