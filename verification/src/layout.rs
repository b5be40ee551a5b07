//! Layout helpers: messages emitted by rendered components, text sizes,
//! icon fallbacks and search paths, the order in which a shell's slots are
//! rendered, and the rule for loading a layout file.

use vstd::prelude::*;
use vstd::string::*;
use crate::strings::str_equals;

verus! {

/// Messages produced by rendered components inside the layout.
#[derive(Debug, Clone)]
pub enum LayoutMessage {
    /// A component button was pressed; carries the action identifier.
    Action(String),
}

/// Semantic text sizes of layout elements.
#[derive(Debug, Clone, Copy, PartialEq, Eq, Structural)]
pub enum TextSize {
    Tiny,
    Body,
    Label,
    Subheading,
    Heading,
}

/// Pixel size of a semantic text size.
pub open spec fn text_size_value(size: TextSize) -> u16 {
    match size {
        TextSize::Tiny => 10,
        TextSize::Body => 13,
        TextSize::Label => 14,
        TextSize::Subheading => 16,
        TextSize::Heading => 20,
    }
}

/// Pixel size of a semantic text size.
pub fn text_size_px(size: &TextSize) -> (px: u16)
    ensures
        px == text_size_value(*size),
{
    match size {
        TextSize::Tiny => 10,
        TextSize::Body => 13,
        TextSize::Label => 14,
        TextSize::Subheading => 16,
        TextSize::Heading => 20,
    }
}

/// The short symbol shown for an icon name when no SVG file is found.
pub open spec fn emoji_for(name: Seq<char>) -> Seq<char> {
    if name == "settings"@ || name == "preferences"@ {
        "\u{2699}"@
    } else if name == "apps"@ || name == "launcher"@ {
        "\u{229e}"@
    } else if name == "help"@ || name == "question"@ {
        "?"@
    } else if name == "ai"@ || name == "assistant"@ {
        "\u{2726}"@
    } else if name == "notifications"@ || name == "bell"@ {
        "\u{1f514}"@
    } else if name == "search"@ {
        "\u{2315}"@
    } else if name == "close"@ || name == "quit"@ {
        "\u{2715}"@
    } else if name == "pin"@ {
        "\u{1f4cc}"@
    } else if name == "unpin"@ {
        "\u{1f4cd}"@
    } else {
        "\u{25cf}"@
    }
}

/// A short symbol for well-known icon names, and a dot for any other name.
pub fn icon_emoji_fallback(name: &str) -> (r: &'static str)
    ensures
        r@ == emoji_for(name@),
        name@ == "settings"@ ==> r@ == "\u{2699}"@,
        name@ == "preferences"@ ==> r@ == "\u{2699}"@,
        name@ == "apps"@ ==> r@ == "\u{229e}"@,
        name@ == "launcher"@ ==> r@ == "\u{229e}"@,
        name@ == "help"@ ==> r@ == "?"@,
        name@ == "question"@ ==> r@ == "?"@,
        name@ == "ai"@ ==> r@ == "\u{2726}"@,
        name@ == "assistant"@ ==> r@ == "\u{2726}"@,
        name@ == "notifications"@ ==> r@ == "\u{1f514}"@,
        name@ == "bell"@ ==> r@ == "\u{1f514}"@,
        name@ == "search"@ ==> r@ == "\u{2315}"@,
        name@ == "close"@ ==> r@ == "\u{2715}"@,
        name@ == "quit"@ ==> r@ == "\u{2715}"@,
        name@ == "pin"@ ==> r@ == "\u{1f4cc}"@,
        name@ == "unpin"@ ==> r@ == "\u{1f4cd}"@,
{
    proof {
        lemma_known_names_get_their_symbol(name@);
    }
    if str_equals(name, "settings") || str_equals(name, "preferences") {
        "\u{2699}"
    } else if str_equals(name, "apps") || str_equals(name, "launcher") {
        "\u{229e}"
    } else if str_equals(name, "help") || str_equals(name, "question") {
        "?"
    } else if str_equals(name, "ai") || str_equals(name, "assistant") {
        "\u{2726}"
    } else if str_equals(name, "notifications") || str_equals(name, "bell") {
        "\u{1f514}"
    } else if str_equals(name, "search") {
        "\u{2315}"
    } else if str_equals(name, "close") || str_equals(name, "quit") {
        "\u{2715}"
    } else if str_equals(name, "pin") {
        "\u{1f4cc}"
    } else if str_equals(name, "unpin") {
        "\u{1f4cd}"
    } else {
        "\u{25cf}"
    }
}

/// The well-known icon names are pairwise different.
proof fn lemma_emoji_names_distinct()
    ensures
        "preferences"@ != "settings"@,
        "apps"@ != "settings"@,
        "apps"@ != "preferences"@,
        "launcher"@ != "settings"@,
        "launcher"@ != "preferences"@,
        "launcher"@ != "apps"@,
        "help"@ != "settings"@,
        "help"@ != "preferences"@,
        "help"@ != "apps"@,
        "help"@ != "launcher"@,
        "question"@ != "settings"@,
        "question"@ != "preferences"@,
        "question"@ != "apps"@,
        "question"@ != "launcher"@,
        "question"@ != "help"@,
        "ai"@ != "settings"@,
        "ai"@ != "preferences"@,
        "ai"@ != "apps"@,
        "ai"@ != "launcher"@,
        "ai"@ != "help"@,
        "ai"@ != "question"@,
        "assistant"@ != "settings"@,
        "assistant"@ != "preferences"@,
        "assistant"@ != "apps"@,
        "assistant"@ != "launcher"@,
        "assistant"@ != "help"@,
        "assistant"@ != "question"@,
        "assistant"@ != "ai"@,
        "notifications"@ != "settings"@,
        "notifications"@ != "preferences"@,
        "notifications"@ != "apps"@,
        "notifications"@ != "launcher"@,
        "notifications"@ != "help"@,
        "notifications"@ != "question"@,
        "notifications"@ != "ai"@,
        "notifications"@ != "assistant"@,
        "bell"@ != "settings"@,
        "bell"@ != "preferences"@,
        "bell"@ != "apps"@,
        "bell"@ != "launcher"@,
        "bell"@ != "help"@,
        "bell"@ != "question"@,
        "bell"@ != "ai"@,
        "bell"@ != "assistant"@,
        "bell"@ != "notifications"@,
        "search"@ != "settings"@,
        "search"@ != "preferences"@,
        "search"@ != "apps"@,
        "search"@ != "launcher"@,
        "search"@ != "help"@,
        "search"@ != "question"@,
        "search"@ != "ai"@,
        "search"@ != "assistant"@,
        "search"@ != "notifications"@,
        "search"@ != "bell"@,
        "close"@ != "settings"@,
        "close"@ != "preferences"@,
        "close"@ != "apps"@,
        "close"@ != "launcher"@,
        "close"@ != "help"@,
        "close"@ != "question"@,
        "close"@ != "ai"@,
        "close"@ != "assistant"@,
        "close"@ != "notifications"@,
        "close"@ != "bell"@,
        "close"@ != "search"@,
        "quit"@ != "settings"@,
        "quit"@ != "preferences"@,
        "quit"@ != "apps"@,
        "quit"@ != "launcher"@,
        "quit"@ != "help"@,
        "quit"@ != "question"@,
        "quit"@ != "ai"@,
        "quit"@ != "assistant"@,
        "quit"@ != "notifications"@,
        "quit"@ != "bell"@,
        "quit"@ != "search"@,
        "quit"@ != "close"@,
        "pin"@ != "settings"@,
        "pin"@ != "preferences"@,
        "pin"@ != "apps"@,
        "pin"@ != "launcher"@,
        "pin"@ != "help"@,
        "pin"@ != "question"@,
        "pin"@ != "ai"@,
        "pin"@ != "assistant"@,
        "pin"@ != "notifications"@,
        "pin"@ != "bell"@,
        "pin"@ != "search"@,
        "pin"@ != "close"@,
        "pin"@ != "quit"@,
        "unpin"@ != "settings"@,
        "unpin"@ != "preferences"@,
        "unpin"@ != "apps"@,
        "unpin"@ != "launcher"@,
        "unpin"@ != "help"@,
        "unpin"@ != "question"@,
        "unpin"@ != "ai"@,
        "unpin"@ != "assistant"@,
        "unpin"@ != "notifications"@,
        "unpin"@ != "bell"@,
        "unpin"@ != "search"@,
        "unpin"@ != "close"@,
        "unpin"@ != "quit"@,
        "unpin"@ != "pin"@,
{
    reveal_strlit("settings");
    reveal_strlit("preferences");
    reveal_strlit("apps");
    reveal_strlit("launcher");
    reveal_strlit("help");
    reveal_strlit("question");
    reveal_strlit("ai");
    reveal_strlit("assistant");
    reveal_strlit("notifications");
    reveal_strlit("bell");
    reveal_strlit("search");
    reveal_strlit("close");
    reveal_strlit("quit");
    reveal_strlit("pin");
    reveal_strlit("unpin");
    assert("preferences"@.len() != "settings"@.len());
    assert("apps"@.len() != "settings"@.len());
    assert("apps"@.len() != "preferences"@.len());
    assert("launcher"@[0] != "settings"@[0]);
    assert("launcher"@.len() != "preferences"@.len());
    assert("launcher"@.len() != "apps"@.len());
    assert("help"@.len() != "settings"@.len());
    assert("help"@.len() != "preferences"@.len());
    assert("help"@[0] != "apps"@[0]);
    assert("help"@.len() != "launcher"@.len());
    assert("question"@[0] != "settings"@[0]);
    assert("question"@.len() != "preferences"@.len());
    assert("question"@.len() != "apps"@.len());
    assert("question"@[0] != "launcher"@[0]);
    assert("question"@.len() != "help"@.len());
    assert("ai"@.len() != "settings"@.len());
    assert("ai"@.len() != "preferences"@.len());
    assert("ai"@.len() != "apps"@.len());
    assert("ai"@.len() != "launcher"@.len());
    assert("ai"@.len() != "help"@.len());
    assert("ai"@.len() != "question"@.len());
    assert("assistant"@.len() != "settings"@.len());
    assert("assistant"@.len() != "preferences"@.len());
    assert("assistant"@.len() != "apps"@.len());
    assert("assistant"@.len() != "launcher"@.len());
    assert("assistant"@.len() != "help"@.len());
    assert("assistant"@.len() != "question"@.len());
    assert("assistant"@.len() != "ai"@.len());
    assert("notifications"@.len() != "settings"@.len());
    assert("notifications"@.len() != "preferences"@.len());
    assert("notifications"@.len() != "apps"@.len());
    assert("notifications"@.len() != "launcher"@.len());
    assert("notifications"@.len() != "help"@.len());
    assert("notifications"@.len() != "question"@.len());
    assert("notifications"@.len() != "ai"@.len());
    assert("notifications"@.len() != "assistant"@.len());
    assert("bell"@.len() != "settings"@.len());
    assert("bell"@.len() != "preferences"@.len());
    assert("bell"@[0] != "apps"@[0]);
    assert("bell"@.len() != "launcher"@.len());
    assert("bell"@[0] != "help"@[0]);
    assert("bell"@.len() != "question"@.len());
    assert("bell"@.len() != "ai"@.len());
    assert("bell"@.len() != "assistant"@.len());
    assert("bell"@.len() != "notifications"@.len());
    assert("search"@.len() != "settings"@.len());
    assert("search"@.len() != "preferences"@.len());
    assert("search"@.len() != "apps"@.len());
    assert("search"@.len() != "launcher"@.len());
    assert("search"@.len() != "help"@.len());
    assert("search"@.len() != "question"@.len());
    assert("search"@.len() != "ai"@.len());
    assert("search"@.len() != "assistant"@.len());
    assert("search"@.len() != "notifications"@.len());
    assert("search"@.len() != "bell"@.len());
    assert("close"@.len() != "settings"@.len());
    assert("close"@.len() != "preferences"@.len());
    assert("close"@.len() != "apps"@.len());
    assert("close"@.len() != "launcher"@.len());
    assert("close"@.len() != "help"@.len());
    assert("close"@.len() != "question"@.len());
    assert("close"@.len() != "ai"@.len());
    assert("close"@.len() != "assistant"@.len());
    assert("close"@.len() != "notifications"@.len());
    assert("close"@.len() != "bell"@.len());
    assert("close"@.len() != "search"@.len());
    assert("quit"@.len() != "settings"@.len());
    assert("quit"@.len() != "preferences"@.len());
    assert("quit"@[0] != "apps"@[0]);
    assert("quit"@.len() != "launcher"@.len());
    assert("quit"@[0] != "help"@[0]);
    assert("quit"@.len() != "question"@.len());
    assert("quit"@.len() != "ai"@.len());
    assert("quit"@.len() != "assistant"@.len());
    assert("quit"@.len() != "notifications"@.len());
    assert("quit"@[0] != "bell"@[0]);
    assert("quit"@.len() != "search"@.len());
    assert("quit"@.len() != "close"@.len());
    assert("pin"@.len() != "settings"@.len());
    assert("pin"@.len() != "preferences"@.len());
    assert("pin"@.len() != "apps"@.len());
    assert("pin"@.len() != "launcher"@.len());
    assert("pin"@.len() != "help"@.len());
    assert("pin"@.len() != "question"@.len());
    assert("pin"@.len() != "ai"@.len());
    assert("pin"@.len() != "assistant"@.len());
    assert("pin"@.len() != "notifications"@.len());
    assert("pin"@.len() != "bell"@.len());
    assert("pin"@.len() != "search"@.len());
    assert("pin"@.len() != "close"@.len());
    assert("pin"@.len() != "quit"@.len());
    assert("unpin"@.len() != "settings"@.len());
    assert("unpin"@.len() != "preferences"@.len());
    assert("unpin"@.len() != "apps"@.len());
    assert("unpin"@.len() != "launcher"@.len());
    assert("unpin"@.len() != "help"@.len());
    assert("unpin"@.len() != "question"@.len());
    assert("unpin"@.len() != "ai"@.len());
    assert("unpin"@.len() != "assistant"@.len());
    assert("unpin"@.len() != "notifications"@.len());
    assert("unpin"@.len() != "bell"@.len());
    assert("unpin"@.len() != "search"@.len());
    assert("unpin"@[0] != "close"@[0]);
    assert("unpin"@.len() != "quit"@.len());
    assert("unpin"@.len() != "pin"@.len());
}

/// Each well-known icon name gets the symbol of its group, and any other
/// name gets the dot.
pub proof fn lemma_known_names_get_their_symbol(name: Seq<char>)
    ensures
        name == "settings"@ ==> emoji_for(name) == "\u{2699}"@,
        name == "preferences"@ ==> emoji_for(name) == "\u{2699}"@,
        name == "apps"@ ==> emoji_for(name) == "\u{229e}"@,
        name == "launcher"@ ==> emoji_for(name) == "\u{229e}"@,
        name == "help"@ ==> emoji_for(name) == "?"@,
        name == "question"@ ==> emoji_for(name) == "?"@,
        name == "ai"@ ==> emoji_for(name) == "\u{2726}"@,
        name == "assistant"@ ==> emoji_for(name) == "\u{2726}"@,
        name == "notifications"@ ==> emoji_for(name) == "\u{1f514}"@,
        name == "bell"@ ==> emoji_for(name) == "\u{1f514}"@,
        name == "search"@ ==> emoji_for(name) == "\u{2315}"@,
        name == "close"@ ==> emoji_for(name) == "\u{2715}"@,
        name == "quit"@ ==> emoji_for(name) == "\u{2715}"@,
        name == "pin"@ ==> emoji_for(name) == "\u{1f4cc}"@,
        name == "unpin"@ ==> emoji_for(name) == "\u{1f4cd}"@,
        !(name == "settings"@ || name == "preferences"@ || name == "apps"@ || name == "launcher"@ || name == "help"@ || name == "question"@ || name == "ai"@ || name == "assistant"@ || name == "notifications"@ || name == "bell"@ || name == "search"@ || name == "close"@ || name == "quit"@ || name == "pin"@ || name == "unpin"@) ==> emoji_for(name) == "\u{25cf}"@,
{
    lemma_emoji_names_distinct();
}

/// Different icon groups, and the fallback for unknown names, get
/// different symbols.
pub proof fn lemma_fallback_symbols_distinct()
    ensures
        "\u{229e}"@ != "\u{2699}"@,
        "?"@ != "\u{2699}"@,
        "?"@ != "\u{229e}"@,
        "\u{2726}"@ != "\u{2699}"@,
        "\u{2726}"@ != "\u{229e}"@,
        "\u{2726}"@ != "?"@,
        "\u{1f514}"@ != "\u{2699}"@,
        "\u{1f514}"@ != "\u{229e}"@,
        "\u{1f514}"@ != "?"@,
        "\u{1f514}"@ != "\u{2726}"@,
        "\u{2315}"@ != "\u{2699}"@,
        "\u{2315}"@ != "\u{229e}"@,
        "\u{2315}"@ != "?"@,
        "\u{2315}"@ != "\u{2726}"@,
        "\u{2315}"@ != "\u{1f514}"@,
        "\u{2715}"@ != "\u{2699}"@,
        "\u{2715}"@ != "\u{229e}"@,
        "\u{2715}"@ != "?"@,
        "\u{2715}"@ != "\u{2726}"@,
        "\u{2715}"@ != "\u{1f514}"@,
        "\u{2715}"@ != "\u{2315}"@,
        "\u{1f4cc}"@ != "\u{2699}"@,
        "\u{1f4cc}"@ != "\u{229e}"@,
        "\u{1f4cc}"@ != "?"@,
        "\u{1f4cc}"@ != "\u{2726}"@,
        "\u{1f4cc}"@ != "\u{1f514}"@,
        "\u{1f4cc}"@ != "\u{2315}"@,
        "\u{1f4cc}"@ != "\u{2715}"@,
        "\u{1f4cd}"@ != "\u{2699}"@,
        "\u{1f4cd}"@ != "\u{229e}"@,
        "\u{1f4cd}"@ != "?"@,
        "\u{1f4cd}"@ != "\u{2726}"@,
        "\u{1f4cd}"@ != "\u{1f514}"@,
        "\u{1f4cd}"@ != "\u{2315}"@,
        "\u{1f4cd}"@ != "\u{2715}"@,
        "\u{1f4cd}"@ != "\u{1f4cc}"@,
        "\u{25cf}"@ != "\u{2699}"@,
        "\u{25cf}"@ != "\u{229e}"@,
        "\u{25cf}"@ != "?"@,
        "\u{25cf}"@ != "\u{2726}"@,
        "\u{25cf}"@ != "\u{1f514}"@,
        "\u{25cf}"@ != "\u{2315}"@,
        "\u{25cf}"@ != "\u{2715}"@,
        "\u{25cf}"@ != "\u{1f4cc}"@,
        "\u{25cf}"@ != "\u{1f4cd}"@,
{
    reveal_strlit("\u{2699}");
    reveal_strlit("\u{229e}");
    reveal_strlit("?");
    reveal_strlit("\u{2726}");
    reveal_strlit("\u{1f514}");
    reveal_strlit("\u{2315}");
    reveal_strlit("\u{2715}");
    reveal_strlit("\u{1f4cc}");
    reveal_strlit("\u{1f4cd}");
    reveal_strlit("\u{25cf}");
    assert("\u{229e}"@[0] != "\u{2699}"@[0]);
    assert("?"@[0] != "\u{2699}"@[0]);
    assert("?"@[0] != "\u{229e}"@[0]);
    assert("\u{2726}"@[0] != "\u{2699}"@[0]);
    assert("\u{2726}"@[0] != "\u{229e}"@[0]);
    assert("\u{2726}"@[0] != "?"@[0]);
    assert("\u{1f514}"@[0] != "\u{2699}"@[0]);
    assert("\u{1f514}"@[0] != "\u{229e}"@[0]);
    assert("\u{1f514}"@[0] != "?"@[0]);
    assert("\u{1f514}"@[0] != "\u{2726}"@[0]);
    assert("\u{2315}"@[0] != "\u{2699}"@[0]);
    assert("\u{2315}"@[0] != "\u{229e}"@[0]);
    assert("\u{2315}"@[0] != "?"@[0]);
    assert("\u{2315}"@[0] != "\u{2726}"@[0]);
    assert("\u{2315}"@[0] != "\u{1f514}"@[0]);
    assert("\u{2715}"@[0] != "\u{2699}"@[0]);
    assert("\u{2715}"@[0] != "\u{229e}"@[0]);
    assert("\u{2715}"@[0] != "?"@[0]);
    assert("\u{2715}"@[0] != "\u{2726}"@[0]);
    assert("\u{2715}"@[0] != "\u{1f514}"@[0]);
    assert("\u{2715}"@[0] != "\u{2315}"@[0]);
    assert("\u{1f4cc}"@[0] != "\u{2699}"@[0]);
    assert("\u{1f4cc}"@[0] != "\u{229e}"@[0]);
    assert("\u{1f4cc}"@[0] != "?"@[0]);
    assert("\u{1f4cc}"@[0] != "\u{2726}"@[0]);
    assert("\u{1f4cc}"@[0] != "\u{1f514}"@[0]);
    assert("\u{1f4cc}"@[0] != "\u{2315}"@[0]);
    assert("\u{1f4cc}"@[0] != "\u{2715}"@[0]);
    assert("\u{1f4cd}"@[0] != "\u{2699}"@[0]);
    assert("\u{1f4cd}"@[0] != "\u{229e}"@[0]);
    assert("\u{1f4cd}"@[0] != "?"@[0]);
    assert("\u{1f4cd}"@[0] != "\u{2726}"@[0]);
    assert("\u{1f4cd}"@[0] != "\u{1f514}"@[0]);
    assert("\u{1f4cd}"@[0] != "\u{2315}"@[0]);
    assert("\u{1f4cd}"@[0] != "\u{2715}"@[0]);
    assert("\u{1f4cd}"@[0] != "\u{1f4cc}"@[0]);
    assert("\u{25cf}"@[0] != "\u{2699}"@[0]);
    assert("\u{25cf}"@[0] != "\u{229e}"@[0]);
    assert("\u{25cf}"@[0] != "?"@[0]);
    assert("\u{25cf}"@[0] != "\u{2726}"@[0]);
    assert("\u{25cf}"@[0] != "\u{1f514}"@[0]);
    assert("\u{25cf}"@[0] != "\u{2315}"@[0]);
    assert("\u{25cf}"@[0] != "\u{2715}"@[0]);
    assert("\u{25cf}"@[0] != "\u{1f4cc}"@[0]);
    assert("\u{25cf}"@[0] != "\u{1f4cd}"@[0]);
}

/// `base` joined with the path `rel`: `rel` alone when it is absolute (starts
/// with `/`) or `base` is empty, otherwise with exactly one `/` between them
/// when `base` does not already end in one.
pub open spec fn join_path(base: Seq<char>, rel: Seq<char>) -> Seq<char> {
    if rel.len() > 0 && rel[0] == '/' {
        rel
    } else if base.len() == 0 {
        rel
    } else if base.last() == '/' {
        base + rel
    } else {
        base + seq!['/'] + rel
    }
}

/// Join the path `rel` onto `base`; an absolute `rel` replaces `base`.
pub fn path_join(base: &str, rel: &str) -> (r: String)
    ensures
        r@ == join_path(base@, rel@),
{
    if rel.unicode_len() > 0 && rel.get_char(0) == '/' {
        return rel.to_owned();
    }
    let n = base.unicode_len();
    if n == 0 {
        return rel.to_owned();
    }
    let mut out = base.to_owned();
    if base.get_char(n - 1) != '/' {
        out.append("/");
        proof {
            reveal_strlit("/");
        }
    }
    out.append(rel);
    out
}

/// The file name of an icon's SVG: `<name>.svg`.
pub open spec fn svg_file_name(name: Seq<char>) -> Seq<char> {
    name + ".svg"@
}

/// Where to look for an icon's SVG, in order: the user's icon directory
/// under `home` (the current directory when there is no home), the
/// system-wide icon directory, and the `assets/icons` directory next to the
/// executable (an empty path, which never exists, when the executable's
/// directory is unknown).
pub open spec fn icon_candidates(home: Option<Seq<char>>, exe_dir: Option<Seq<char>>, name: Seq<char>) -> Seq<Seq<char>> {
    let file = svg_file_name(name);
    seq![
        join_path(
            join_path(
                match home {
                    Some(h) => h,
                    None => "."@,
                },
                ".local/share/freesynergy/icons"@,
            ),
            file,
        ),
        join_path("/var/lib/freesynergy/icons"@, file),
        match exe_dir {
            Some(d) => join_path(join_path(d, "assets/icons"@), file),
            None => Seq::empty(),
        },
    ]
}

/// Candidate SVG paths for an icon, given the home directory and the
/// executable's directory if they are known.
pub fn icon_svg_candidates(home: Option<&str>, exe_dir: Option<&str>, name: &str) -> (r: Vec<String>)
    ensures
        r@.map_values(|s: String| s@) == icon_candidates(
            match home {
                Some(h) => Some(h@),
                None => None,
            },
            match exe_dir {
                Some(d) => Some(d@),
                None => None,
            },
            name@,
        ),
{
    let mut file = name.to_owned();
    file.append(".svg");
    let home_dir = match home {
        Some(h) => h,
        None => ".",
    };
    let user_dir = path_join(home_dir, ".local/share/freesynergy/icons");
    let user = path_join(user_dir.as_str(), file.as_str());
    let system = path_join("/var/lib/freesynergy/icons", file.as_str());
    let bundled = match exe_dir {
        Some(d) => {
            let assets = path_join(d, "assets/icons");
            path_join(assets.as_str(), file.as_str())
        },
        None => String::new(),
    };
    let mut r: Vec<String> = Vec::new();
    r.push(user);
    r.push(system);
    r.push(bundled);
    proof {
        let ghost hv: Option<Seq<char>> = match home {
            Some(h) => Some(h@),
            None => None,
        };
        let ghost dv: Option<Seq<char>> = match exe_dir {
            Some(d) => Some(d@),
            None => None,
        };
        assert(r@.map_values(|s: String| s@) =~= icon_candidates(hv, dv, name@));
    }
    r
}

/// The four shell containers of a layout.
#[derive(Debug, Clone, Copy, PartialEq, Eq, Structural)]
pub enum ShellKind {
    Topbar,
    Sidebar,
    Bottombar,
    Main,
}

/// The three slots inside a shell container.
#[derive(Debug, Clone, Copy, PartialEq, Eq, Structural)]
pub enum SlotKind {
    Top,
    Fill,
    Bottom,
}

/// The component ids placed in each slot of a shell.
pub struct SlotConfig {
    pub top: Vec<String>,
    pub fill: Vec<String>,
    pub bottom: Vec<String>,
}

/// One component to render, with the shell and slot it is rendered in.
pub struct SlotPlacement {
    pub component_id: String,
    pub shell: ShellKind,
    pub slot: SlotKind,
}

/// A placement as plain values.
pub open spec fn placement_view(p: SlotPlacement) -> (Seq<char>, ShellKind, SlotKind) {
    (p.component_id@, p.shell, p.slot)
}

/// Each id of `ids`, in order, tagged with `shell` and `slot`.
pub open spec fn tagged(ids: Seq<String>, shell: ShellKind, slot: SlotKind) -> Seq<(Seq<char>, ShellKind, SlotKind)> {
    Seq::new(ids.len(), |i: int| (ids[i]@, shell, slot))
}

/// The components of a shell in rendering order: the top slot, then the
/// fill slot, then the bottom slot, each in its configured order.
pub open spec fn slot_order(slots: SlotConfig, shell: ShellKind) -> Seq<(Seq<char>, ShellKind, SlotKind)> {
    tagged(slots.top@, shell, SlotKind::Top) + tagged(slots.fill@, shell, SlotKind::Fill) + tagged(
        slots.bottom@,
        shell,
        SlotKind::Bottom,
    )
}

/// Append each id of `ids`, in order, tagged with `shell` and `slot`.
fn push_tagged(out: &mut Vec<SlotPlacement>, ids: &Vec<String>, shell: ShellKind, slot: SlotKind)
    ensures
        final(out)@.map_values(|p: SlotPlacement| placement_view(p)) == old(out)@.map_values(
            |p: SlotPlacement| placement_view(p),
        ) + tagged(ids@, shell, slot),
{
    let ghost start = old(out)@.map_values(|p: SlotPlacement| placement_view(p));
    let mut i: usize = 0;
    while i < ids.len()
        invariant
            i <= ids@.len(),
            out@.map_values(|p: SlotPlacement| placement_view(p)) == start + tagged(
                ids@.take(i as int),
                shell,
                slot,
            ),
        decreases ids@.len() - i,
    {
        let ghost before = out@;
        let id = ids[i].clone();
        assert(id@ == ids@[i as int]@);
        out.push(SlotPlacement { component_id: id, shell, slot });
        assert(out@ == before.push(out@.last()));
        assert(out@.map_values(|p: SlotPlacement| placement_view(p)) =~= before.map_values(
            |p: SlotPlacement| placement_view(p),
        ).push((ids@[i as int]@, shell, slot)));
        assert(tagged(ids@.take(i + 1), shell, slot) =~= tagged(ids@.take(i as int), shell, slot).push(
            (ids@[i as int]@, shell, slot),
        ));
        assert(out@.map_values(|p: SlotPlacement| placement_view(p)) =~= start + tagged(
            ids@.take(i + 1),
            shell,
            slot,
        ));
        i = i + 1;
    }
    assert(ids@.take(ids@.len() as int) =~= ids@);
}

/// The components of a shell, in the order they are rendered, each with its
/// shell and slot.
pub fn slot_placements(slots: &SlotConfig, shell: ShellKind) -> (r: Vec<SlotPlacement>)
    ensures
        r@.map_values(|p: SlotPlacement| placement_view(p)) == slot_order(*slots, shell),
{
    let mut r: Vec<SlotPlacement> = Vec::new();
    assert(r@.map_values(|p: SlotPlacement| placement_view(p)) =~= Seq::empty());
    push_tagged(&mut r, &slots.top, shell, SlotKind::Top);
    assert(Seq::<(Seq<char>, ShellKind, SlotKind)>::empty() + tagged(slots.top@, shell, SlotKind::Top)
        =~= tagged(slots.top@, shell, SlotKind::Top));
    push_tagged(&mut r, &slots.fill, shell, SlotKind::Fill);
    push_tagged(&mut r, &slots.bottom, shell, SlotKind::Bottom);
    r
}

/// Width of a shell container.
#[derive(Debug, Clone, Copy, PartialEq, Eq, Structural)]
pub enum ShellWidth {
    /// A fixed number of logical pixels.
    Fixed(u32),
    /// All available space.
    Fill,
}

/// A shell with a positive configured size is that many pixels wide; size
/// zero means it fills the available space.
pub fn shell_width(size: u32) -> (w: ShellWidth)
    ensures
        size > 0 ==> w == ShellWidth::Fixed(size),
        size == 0 ==> w == ShellWidth::Fill,
{
    if size > 0 {
        ShellWidth::Fixed(size)
    } else {
        ShellWidth::Fill
    }
}

/// Why a layout file could not be loaded.
#[derive(Debug, Clone)]
pub enum LayoutError {
    /// There is no file at the path (carries the path).
    NotFound(String),
    /// The file is not a valid layout (carries the parser's message).
    Parse(String),
}

/// The outcome of loading a layout where a missing file stands for the
/// default layout: a loaded layout is kept, a missing file gives `default`,
/// and any other error is passed on.
pub fn load_layout_or_default<T>(loaded: Result<T, LayoutError>, default: T) -> (r: Result<T, LayoutError>)
    ensures
        match loaded {
            Ok(d) => r == Ok::<T, LayoutError>(d),
            Err(LayoutError::NotFound(_)) => r == Ok::<T, LayoutError>(default),
            Err(e) => r == Err::<T, LayoutError>(e),
        },
{
    match loaded {
        Ok(d) => Ok(d),
        Err(LayoutError::NotFound(_)) => Ok(default),
        Err(e) => Err(e),
    }
}

/// Text sizes grow strictly from tiny to heading, starting at 10 and ending
/// at 20 pixels, with body text at 13.
pub proof fn lemma_text_sizes_increase()
    ensures
        text_size_value(TextSize::Tiny) == 10,
        text_size_value(TextSize::Tiny) < text_size_value(TextSize::Body),
        text_size_value(TextSize::Body) == 13,
        text_size_value(TextSize::Body) < text_size_value(TextSize::Label),
        text_size_value(TextSize::Label) == 14,
        text_size_value(TextSize::Label) < text_size_value(TextSize::Subheading),
        text_size_value(TextSize::Subheading) == 16,
        text_size_value(TextSize::Subheading) < text_size_value(TextSize::Heading),
        text_size_value(TextSize::Heading) == 20,
{
}

/// An absolute part replaces the base; otherwise the result starts with the
/// base, ends with the part, and has at most one `/` added between them.
pub proof fn lemma_join_path_shape(base: Seq<char>, rel: Seq<char>)
    ensures
        rel.len() > 0 && rel[0] == '/' ==> join_path(base, rel) == rel,
        !(rel.len() > 0 && rel[0] == '/') ==> {
            let j = join_path(base, rel);
            &&& j.take(base.len() as int) == base
            &&& j.skip(j.len() - rel.len()) == rel
            &&& base.len() + rel.len() <= j.len() <= base.len() + rel.len() + 1
            &&& (j.len() == base.len() + rel.len() + 1 ==> j[base.len() as int] == '/')
        },
{
    let j = join_path(base, rel);
    if !(rel.len() > 0 && rel[0] == '/') {
        if base.len() == 0 {
            assert(j.take(0) =~= base);
            assert(j.skip(0) =~= rel);
        } else if base.last() == '/' {
            assert(j.take(base.len() as int) =~= base);
            assert(j.skip(j.len() - rel.len()) =~= rel);
        } else {
            assert(j.take(base.len() as int) =~= base);
            assert(j.skip(j.len() - rel.len()) =~= rel);
        }
    }
}

/// The system-wide candidate never depends on the home or executable
/// directory, and the bundled candidate is a non-empty path exactly when the
/// executable's directory is known.
pub proof fn lemma_icon_candidates_shape(
    home: Option<Seq<char>>,
    exe_dir: Option<Seq<char>>,
    name: Seq<char>,
)
    ensures
        icon_candidates(home, exe_dir, name).len() == 3,
        icon_candidates(home, exe_dir, name)[1] == icon_candidates(None, None, name)[1],
        exe_dir is None ==> icon_candidates(home, exe_dir, name)[2].len() == 0,
        exe_dir is Some ==> icon_candidates(home, exe_dir, name)[2].len() > 0,
{
    reveal_strlit(".svg");
    reveal_strlit("assets/icons");
    let file = svg_file_name(name);
    assert(file.len() > 0);
    if let Some(d) = exe_dir {
        lemma_join_path_shape(join_path(d, "assets/icons"@), file);
    }
}

/// The components of a shell are rendered top slot first, then fill, then
/// bottom, each slot's ids in their configured order and tagged with the
/// shell and that slot.
pub proof fn lemma_slot_order_positions(slots: SlotConfig, shell: ShellKind, i: int)
    ensures
        slot_order(slots, shell).len() == slots.top@.len() + slots.fill@.len() + slots.bottom@.len(),
        0 <= i < slots.top@.len() ==> slot_order(slots, shell)[i] == (
            slots.top@[i]@,
            shell,
            SlotKind::Top,
        ),
        0 <= i < slots.fill@.len() ==> slot_order(slots, shell)[slots.top@.len() + i] == (
            slots.fill@[i]@,
            shell,
            SlotKind::Fill,
        ),
        0 <= i < slots.bottom@.len() ==> slot_order(slots, shell)[slots.top@.len()
            + slots.fill@.len() + i] == (slots.bottom@[i]@, shell, SlotKind::Bottom),
{
}

} // verus!
