//! The banner and the usage text of the compiler driver.

use crate::text::{Span, SpanView};
use vstd::prelude::*;

verus! {

/// The banner: the logo, the tool's title and version, and one line that says
/// what the tool is for.
pub open spec fn banner() -> Seq<SpanView> {
    seq![
        SpanView::of("_______________________________________________"@).cyan(),
        SpanView::of("\n"@),
        SpanView::of("  ______ _____ _______ _     _ _     _ _______"@).yellow().bold(),
        SpanView::of("\n"@),
        SpanView::of(" |_____/   |   |______ |_____| |____/  |_____|"@).yellow().bold(),
        SpanView::of("\n"@),
        SpanView::of(" |    \\_ __|__ ______| |     | |    \\_ |     |\r\n"@).yellow().bold(),
        SpanView::of("\n"@),
        SpanView::of("      Rishka Compiler for Compiler"@).cyan().bold(),
        SpanView::of(" "@),
        SpanView::of("v0.0.1"@).italic(),
        SpanView::of("\n"@),
        SpanView::of("_______________________________________________"@).cyan(),
        SpanView::of("\r\n\nRishka compiler tool for generating binaries.\r\n\n"@),
    ]
}

/// The help: how the tool is called, its options, and where to read more.
pub open spec fn help() -> Seq<SpanView> {
    seq![
        SpanView::of("Usage"@).underline(),
        SpanView::of(":\n  "@),
        SpanView::of("rishka-cc"@).italic().bold(),
        SpanView::of(" ["@),
        SpanView::of("options"@).italic(),
        SpanView::of("] <"@),
        SpanView::of("files"@).italic(),
        SpanView::of("...>\n\r\n"@),
        SpanView::of("Options"@).underline(),
        SpanView::of(":\n  "@),
        SpanView::of("--flags, -f"@).italic(),
        SpanView::of("   Flags to be passed on the gcc\r\n                compilation process.\n  "@),
        SpanView::of("--output, -o"@).italic(),
        SpanView::of(
            "  Output file name of the compiled\r\n                binary (shouldn't end with .bin)\n\r\nFor more details see:\r\n  "@,
        ),
        SpanView::of("https://github.com/nthnn/rishka"@).underline(),
        SpanView::of("\n\n"@),
    ]
}

/// The text of the banner.
pub fn print_banner() -> (out: Vec<Span>)
    ensures
        out.deep_view() == banner(),
{
    let out = vec![
        Span::of("_______________________________________________").cyan(),
        Span::of("\n"),
        Span::of("  ______ _____ _______ _     _ _     _ _______").yellow().bold(),
        Span::of("\n"),
        Span::of(" |_____/   |   |______ |_____| |____/  |_____|").yellow().bold(),
        Span::of("\n"),
        Span::of(" |    \\_ __|__ ______| |     | |    \\_ |     |\r\n").yellow().bold(),
        Span::of("\n"),
        Span::of("      Rishka Compiler for Compiler").cyan().bold(),
        Span::of(" "),
        Span::of("v0.0.1").italic(),
        Span::of("\n"),
        Span::of("_______________________________________________").cyan(),
        Span::of("\r\n\nRishka compiler tool for generating binaries.\r\n\n"),
    ];
    assert(out.deep_view() =~= banner());
    out
}

/// The text of the help.
pub fn print_help() -> (out: Vec<Span>)
    ensures
        out.deep_view() == help(),
{
    let out = vec![
        Span::of("Usage").underline(),
        Span::of(":\n  "),
        Span::of("rishka-cc").italic().bold(),
        Span::of(" ["),
        Span::of("options").italic(),
        Span::of("] <"),
        Span::of("files").italic(),
        Span::of("...>\n\r\n"),
        Span::of("Options").underline(),
        Span::of(":\n  "),
        Span::of("--flags, -f").italic(),
        Span::of("   Flags to be passed on the gcc\r\n                compilation process.\n  "),
        Span::of("--output, -o").italic(),
        Span::of(
            "  Output file name of the compiled\r\n                binary (shouldn't end with .bin)\n\r\nFor more details see:\r\n  ",
        ),
        Span::of("https://github.com/nthnn/rishka").underline(),
        Span::of("\n\n"),
    ];
    assert(out.deep_view() =~= help());
    out
}

/// The usage text: the banner, then the help.
pub open spec fn usage() -> Seq<SpanView> {
    banner() + help()
}

/// The text that is shown when the tool is called without input files.
pub fn print_usage() -> (out: Vec<Span>)
    ensures
        out.deep_view() == usage(),
{
    let mut out = print_banner();
    let mut rest = print_help();
    out.append(&mut rest);
    assert(out.deep_view() =~= usage());
    out
}

} // verus!
