use chunkvault_updater::sanitize::sanitize;

#[test]
fn removes_boilerplate_sentence() {
    let raw = "Hello\n**_See the assets to download and install this version._**\nBye";
    assert_eq!(sanitize(raw), "Hello\n\nBye");
}

#[test]
fn removes_notes_marker() {
    assert_eq!(sanitize("### Notes\nFixed stuff"), "\nFixed stuff");
}

#[test]
fn strips_heading_runs_at_line_starts() {
    assert_eq!(sanitize("# Title\n## Sub\nBody"), " Title\n Sub\nBody");
    assert_eq!(sanitize("####deep"), "deep");
    // A hash in the middle of a line is not a heading.
    assert_eq!(sanitize("a # b"), "a # b");
}

#[test]
fn unwraps_bold() {
    assert_eq!(sanitize("**bold** text"), "bold text");
}

#[test]
fn unwraps_italic() {
    assert_eq!(sanitize("_it_ works"), "it works");
    assert_eq!(sanitize("__init__"), "init");
}

#[test]
fn italic_closes_at_nearest_underscore() {
    assert_eq!(sanitize("_a_b_"), "ab_");
}

#[test]
fn rewrites_links_to_labels() {
    assert_eq!(sanitize("[label](http://example.com) end"), "label end");
    assert_eq!(sanitize("see [a](x) and [b](y)"), "see a and b");
}

#[test]
fn full_pipeline_in_order() {
    let raw = "### Notes\n**_See the assets to download and install this version._**\n# v1\n**Fix** _bug_ [doc](u)";
    assert_eq!(sanitize(raw), "\n\n v1\nFix bug doc");
}

#[test]
fn malformed_markup_left_partially_transformed() {
    assert_eq!(sanitize("**unclosed bold"), "**unclosed bold");
    assert_eq!(sanitize("[no](close"), "[no](close");
    // Emphasis never matches across a line break.
    assert_eq!(sanitize("**a\nb**"), "**a\nb**");
}

#[test]
fn idempotent_on_typical_markdown() {
    let inputs = [
        "## Hello **world** [a](b)",
        "plain text, no markup at all",
        "### Notes\n**_See the assets to download and install this version._**",
        "**bold** and _italic_ and [l](u)",
        "",
    ];
    for raw in inputs {
        let once = sanitize(raw);
        let twice = sanitize(&once);
        assert_eq!(twice, once);
    }
}

#[test]
fn sanitize_never_fails_on_noise() {
    let noisy = "*_*_*_[[]]((()))##\n\n####**__**";
    let once = sanitize(noisy);
    // The transform is total; a second pass is also total.
    let _ = sanitize(&once);
}
