//! The banner and the usage text of the application packager.

use crate::text::{Span, SpanView};
use vstd::prelude::*;

verus! {

/// The banner: the logo, the tool's title and version, and one line that says
/// what the tool is for.
pub open spec fn banner() -> Seq<SpanView> {
    seq![
        SpanView::of("_______________________________________________"@).cyan(),
        SpanView::of("\n"@),
        SpanView::of("  ______ _____ _______ _     _ _     _ _______"@).yellow().bold(),
        SpanView::of("\n"@),
        SpanView::of(" |_____/   |   |______ |_____| |____/  |_____|"@).yellow().bold(),
        SpanView::of("\n"@),
        SpanView::of(" |    \\_ __|__ ______| |     | |    \\_ |     |\r\n"@).yellow().bold(),
        SpanView::of("\n"@),
        SpanView::of("      Rishka Application Packager"@).cyan().bold(),
        SpanView::of(" "@),
        SpanView::of("v0.0.1"@).italic(),
        SpanView::of("\n"@),
        SpanView::of("_______________________________________________"@).cyan(),
        SpanView::of("\r\n\nRishka archive tool for packaging application installer.\r\n\n"@),
    ]
}

/// The help: the two ways to call the tool, its arguments, and where to read
/// more.
pub open spec fn help() -> Seq<SpanView> {
    seq![
        SpanView::of("Usage"@).underline(),
        SpanView::of(":\n  "@),
        SpanView::of("rishka-arc"@).italic().bold(),
        SpanView::of(" "@),
        SpanView::of("<binary file>"@).italic(),
        SpanView::of(" "@),
        SpanView::of("<manual file>"@).italic(),
        SpanView::of(" "@),
        SpanView::of("<config file>"@).italic(),
        SpanView::of("\n  "@),
        SpanView::of("rishka-arc"@).italic().bold(),
        SpanView::of(" "@),
        SpanView::of("help"@).italic(),
        SpanView::of("\n\r\n"@),
        SpanView::of("Arguments"@).underline(),
        SpanView::of(":\n  "@),
        SpanView::of("binary file"@).italic(),
        SpanView::of("   Binary file of the application in package.\n  "@),
        SpanView::of("manual file"@).italic(),
        SpanView::of("   Manual files for the application package.\n  "@),
        SpanView::of("config file"@).italic(),
        SpanView::of(
            "   Manifest configuration file and other\r\n\t\tmiscellaneous informations about the\r\n\t\tapplication.\n\r\nFor more details see:\r\n  "@,
        ),
        SpanView::of("https://github.com/nthnn/rishka"@).underline(),
        SpanView::of("\n\n"@),
    ]
}

/// The usage text: the banner, then the help.
pub open spec fn usage() -> Seq<SpanView> {
    banner() + help()
}

/// The text of the banner.
pub fn print_banner() -> (out: Vec<Span>)
    ensures
        out.deep_view() == banner(),
{
    let out = vec![
        Span::of("_______________________________________________").cyan(),
        Span::of("\n"),
        Span::of("  ______ _____ _______ _     _ _     _ _______").yellow().bold(),
        Span::of("\n"),
        Span::of(" |_____/   |   |______ |_____| |____/  |_____|").yellow().bold(),
        Span::of("\n"),
        Span::of(" |    \\_ __|__ ______| |     | |    \\_ |     |\r\n").yellow().bold(),
        Span::of("\n"),
        Span::of("      Rishka Application Packager").cyan().bold(),
        Span::of(" "),
        Span::of("v0.0.1").italic(),
        Span::of("\n"),
        Span::of("_______________________________________________").cyan(),
        Span::of("\r\n\nRishka archive tool for packaging application installer.\r\n\n"),
    ];
    assert(out.deep_view() =~= banner());
    out
}

/// The text of the help.
pub fn print_help() -> (out: Vec<Span>)
    ensures
        out.deep_view() == help(),
{
    let out = vec![
        Span::of("Usage").underline(),
        Span::of(":\n  "),
        Span::of("rishka-arc").italic().bold(),
        Span::of(" "),
        Span::of("<binary file>").italic(),
        Span::of(" "),
        Span::of("<manual file>").italic(),
        Span::of(" "),
        Span::of("<config file>").italic(),
        Span::of("\n  "),
        Span::of("rishka-arc").italic().bold(),
        Span::of(" "),
        Span::of("help").italic(),
        Span::of("\n\r\n"),
        Span::of("Arguments").underline(),
        Span::of(":\n  "),
        Span::of("binary file").italic(),
        Span::of("   Binary file of the application in package.\n  "),
        Span::of("manual file").italic(),
        Span::of("   Manual files for the application package.\n  "),
        Span::of("config file").italic(),
        Span::of(
            "   Manifest configuration file and other\r\n\t\tmiscellaneous informations about the\r\n\t\tapplication.\n\r\nFor more details see:\r\n  ",
        ),
        Span::of("https://github.com/nthnn/rishka").underline(),
        Span::of("\n\n"),
    ];
    assert(out.deep_view() =~= help());
    out
}

/// The usage text of the packager: what it is, and how it is called.
pub fn print_usage() -> (out: Vec<Span>)
    ensures
        out.deep_view() == usage(),
{
    let mut out = print_banner();
    let mut rest = print_help();
    out.append(&mut rest);
    assert(out.deep_view() =~= usage());
    out
}

} // verus!
