use bibo::error::BiboError;
use bibo::markdown::{argument_text, clean_markdown, file_format, file_text, TextFormat};
use bibo::text::{contains, eq_ignore_ascii_case, is_blank, trim};

#[test]
fn cleaning_plain_text_is_idempotent() {
    let plain = "Hello world.\nThis is plain text, with commas.";
    let once = clean_markdown(plain);
    assert_eq!(once, plain);
    assert_eq!(clean_markdown(&once), once);
}

#[test]
fn cleaning_strips_markdown() {
    assert_eq!(clean_markdown("Before\n```rust\nlet x = 1;\n```\nAfter"), "Before\n\nAfter");
    assert_eq!(clean_markdown("Use `cargo build` now"), "Use cargo build now");
    assert_eq!(clean_markdown("See ![a cat](cat.png) here"), "See a cat here");
    assert_eq!(clean_markdown("![](x.png)tail"), "tail");
    assert_eq!(clean_markdown("Go to [the site](http://x.y) today"), "Go to the site today");
    assert_eq!(clean_markdown("# Title\nbody\n## Sub\ntext"), "Title\nbody\nSub\ntext");
    assert_eq!(clean_markdown("***a*** **b** *c*"), "a b c");
    assert_eq!(clean_markdown("- one\n+ two\n1. three"), "one\ntwo\nthree");
    assert_eq!(clean_markdown("a\n\n\n\nb"), "a\n\nb");
    assert_eq!(clean_markdown("  padded  "), "padded");
}

#[test]
fn empty_inputs_are_refused() {
    assert_eq!(argument_text(None), Err(BiboError::NoTextProvided));
    assert_eq!(argument_text(Some(String::new())), Err(BiboError::NoTextProvided));
    assert_eq!(argument_text(Some(" \t\n\u{3000}".to_string())), Err(BiboError::NoTextProvided));
    assert_eq!(argument_text(Some(" hi ".to_string())), Ok(" hi ".to_string()));
    assert_eq!(
        file_text("a.txt", TextFormat::Plain, "  \n "),
        Err(BiboError::EmptyFile("a.txt".to_string()))
    );
    assert_eq!(
        file_text("a.md", TextFormat::Markdown, "```\ncode only\n```\n"),
        Err(BiboError::EmptyFile("a.md".to_string()))
    );
    assert_eq!(file_text("a.md", TextFormat::Markdown, "# Hi"), Ok("Hi".to_string()));
    assert_eq!(file_text("a.txt", TextFormat::Plain, "# Hi\n"), Ok("# Hi\n".to_string()));
}

#[test]
fn input_file_formats() {
    assert_eq!(file_format("md"), Ok(TextFormat::Markdown));
    assert_eq!(file_format("MarkDown"), Ok(TextFormat::Markdown));
    assert_eq!(file_format("TXT"), Ok(TextFormat::Plain));
    assert_eq!(file_format("PDF"), Err(BiboError::UnsupportedFileType("pdf".to_string())));
    assert_eq!(file_format(""), Err(BiboError::UnsupportedFileType(String::new())));
}

#[test]
fn text_helpers() {
    assert_eq!(trim("\u{a0} a b \u{2003}"), "a b");
    assert_eq!(trim("   "), "");
    assert!(is_blank(""));
    assert!(!is_blank(" x "));
    assert!(contains("vits-melo-tts", "melo"));
    assert!(contains("abc", ""));
    assert!(!contains("ab", "abc"));
    assert!(eq_ignore_ascii_case("Ryan", "rYAN"));
    assert!(!eq_ignore_ascii_case("Ryan", "Rya"));
}
