use colored::{Color, ColoredString, Colorize, Styles};
use rishka_tools::text::{paint, Span};

#[test]
fn paint_keeps_the_text() {
    assert_eq!(paint(&Span::of("Checking '")).input, "Checking '");
    assert_eq!(paint(&Span::of("")).input, "");
    assert_eq!(paint(&Span::of("done").yellow().bold()).input, "done");
}

#[test]
fn paint_of_plain_span_is_plain() {
    let painted = paint(&Span::of("text"));
    assert_eq!(painted.fgcolor, None);
    assert_eq!(painted.bgcolor, None);
    assert!(painted.is_plain());
}

#[test]
fn paint_sets_the_colour() {
    assert_eq!(paint(&Span::of("x").cyan()).fgcolor, Some(Color::Cyan));
    assert_eq!(paint(&Span::of("x").yellow()).fgcolor, Some(Color::Yellow));
    assert_eq!(paint(&Span::of("x").green()).fgcolor, Some(Color::Green));
    assert_eq!(paint(&Span::of("x").red()).fgcolor, Some(Color::Red));
    assert_eq!(paint(&Span::of("x").blue()).fgcolor, Some(Color::Blue));
    assert_eq!(paint(&Span::of("x").blue()).bgcolor, None);
    assert!(!paint(&Span::of("x").blue()).style.contains(Styles::Bold));
}

#[test]
fn paint_sets_the_styles() {
    let painted = paint(&Span::of("x").bold());
    assert!(painted.style.contains(Styles::Bold));
    assert!(!painted.style.contains(Styles::Italic));
    assert!(!painted.style.contains(Styles::Underline));
    assert_eq!(painted.fgcolor, None);
    let painted = paint(&Span::of("x").italic());
    assert!(painted.style.contains(Styles::Italic));
    assert!(!painted.style.contains(Styles::Bold));
    let painted = paint(&Span::of("x").underline());
    assert!(painted.style.contains(Styles::Underline));
    assert!(!painted.style.contains(Styles::Italic));
}

#[test]
fn paint_combines_colour_and_styles() {
    let painted = paint(&Span::of("rishka-cc").italic().bold());
    assert!(painted.style.contains(Styles::Bold) && painted.style.contains(Styles::Italic));
    assert!(!painted.style.contains(Styles::Underline));
    let painted = paint(&Span::of("RISHKA_LIBPATH").cyan().italic());
    assert_eq!(painted.fgcolor, Some(Color::Cyan));
    assert!(painted.style.contains(Styles::Italic) && !painted.style.contains(Styles::Bold));
    let painted = paint(&Span::of("wrong").red().bold());
    assert_eq!(painted.fgcolor, Some(Color::Red));
    assert!(painted.style.contains(Styles::Bold));
    assert!(!painted.style.contains(Styles::Dimmed));
    assert!(!painted.style.contains(Styles::Blink));
}

#[test]
fn paint_is_what_colored_builds_itself() {
    assert_eq!(paint(&Span::of("Building").blue().bold()), "Building".blue().bold());
    assert_eq!(paint(&Span::of("Usage").underline()), "Usage".underline());
    assert_eq!(paint(&Span::of("key").cyan().italic()), "key".cyan().italic());
    assert_eq!(paint(&Span::of("plain")), ColoredString::from("plain"));
}
