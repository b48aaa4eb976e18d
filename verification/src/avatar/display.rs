//! Message rendering: terminal colors, role colors, headers and truncation.
use vstd::prelude::*;
use vstd::string::StringSliceAdditionalSpecFns;
use vstd::utf8::{encode_utf8, is_char_boundary};
use crate::text::{chars_of, eq_str, lines, lines_of, push_char, push_str};

verus! {

/// Terminal color escape sequences.
pub struct Colors;

impl Colors {
    pub const RESET: &'static str = "\x1b[0m";
    pub const BOLD: &'static str = "\x1b[1m";
    pub const DIM: &'static str = "\x1b[2m";
    pub const CYAN: &'static str = "\x1b[36m";
    pub const GREEN: &'static str = "\x1b[32m";
    pub const YELLOW: &'static str = "\x1b[33m";
    pub const MAGENTA: &'static str = "\x1b[35m";
    pub const BLUE: &'static str = "\x1b[34m";
    pub const RED: &'static str = "\x1b[31m";
    pub const WHITE: &'static str = "\x1b[37m";
}

/// The color of messages from `role`.
pub open spec fn role_color_of(role: Seq<char>) -> Seq<char> {
    if role == "user"@ {
        "\x1b[32m"@
    } else if role == "assistant"@ {
        "\x1b[36m"@
    } else if role == "system"@ {
        "\x1b[2m"@
    } else if role == "error"@ {
        "\x1b[31m"@
    } else {
        "\x1b[37m"@
    }
}

/// The color of messages from `role` (see `role_color_of`).
pub fn role_color(role: &str) -> (c: &'static str)
    ensures
        c@ == role_color_of(role@),
{
    if eq_str(role, "user") {
        Colors::GREEN
    } else if eq_str(role, "assistant") {
        Colors::CYAN
    } else if eq_str(role, "system") {
        Colors::DIM
    } else if eq_str(role, "error") {
        Colors::RED
    } else {
        Colors::WHITE
    }
}

/// The label shown above a message from `role`: `You` for the user, the
/// character's `name` for the assistant, `System`, or the role itself.
pub open spec fn role_label(role: Seq<char>, name: Seq<char>) -> Seq<char> {
    if role == "user"@ {
        "You"@
    } else if role == "assistant"@ {
        name
    } else if role == "system"@ {
        "System"@
    } else {
        role
    }
}

/// The printed lines of each line of `ls`, indented in `color`.
pub open spec fn body_lines(ls: Seq<Seq<char>>, color: Seq<char>) -> Seq<char>
    decreases ls.len(),
{
    if ls.len() == 0 {
        Seq::empty()
    } else {
        body_lines(ls.drop_last(), color) + "  "@ + color + " "@ + ls.last() + "\n"@
    }
}

/// `s` padded with spaces to at least `w` characters.
pub open spec fn pad_right(s: Seq<char>, w: nat) -> Seq<char> {
    if s.len() >= w {
        s
    } else {
        s + Seq::new((w - s.len()) as nat, |i: int| ' ')
    }
}

/// The message renderer.
#[derive(Debug, Clone, Copy)]
pub struct DisplayRenderer;

impl DisplayRenderer {
    /// The renderer; it holds no state.
    pub fn new() -> (r: Self)
        ensures
            r == DisplayRenderer,
    {
        DisplayRenderer
    }

    /// The text printed for a message: a blank line, the colored bold label, each
    /// content line indented in the role's color, and a color reset.
    pub fn render_message(&self, role: &str, name: &str, content: &str) -> (s: String)
        ensures
            s@ == "\n"@ + role_color_of(role@) + "\x1b[1m"@ + " "@ + role_label(role@, name@) + "\x1b[0m"@
                + "\n"@ + body_lines(lines_of(content@), role_color_of(role@)) + "\x1b[0m"@ + "\n"@,
    {
        let color = role_color(role);
        let label: &str = if eq_str(role, "user") {
            "You"
        } else if eq_str(role, "assistant") {
            name
        } else if eq_str(role, "system") {
            "System"
        } else {
            role
        };
        let mut s = String::new();
        push_str(&mut s, "\n");
        push_str(&mut s, color);
        push_str(&mut s, Colors::BOLD);
        push_str(&mut s, " ");
        push_str(&mut s, label);
        push_str(&mut s, Colors::RESET);
        push_str(&mut s, "\n");
        let ghost head = s@;
        let ls = lines(content);
        let ghost lv = ls@.map_values(|x: String| x@);
        let mut i: usize = 0;
        while i < ls.len()
            invariant
                i <= ls.len(),
                lv == ls@.map_values(|x: String| x@),
                color@ == role_color_of(role@),
                s@ == head + body_lines(lv.take(i as int), color@),
            decreases ls.len() - i,
        {
            push_str(&mut s, "  ");
            push_str(&mut s, color);
            push_str(&mut s, " ");
            push_str(&mut s, ls[i].as_str());
            push_str(&mut s, "\n");
            proof {
                assert(lv.take(i + 1).drop_last() =~= lv.take(i as int));
                assert(lv.take(i + 1).last() == ls@[i as int]@);
                assert(s@ =~= head + body_lines(lv.take(i + 1), color@));
            }
            i = i + 1;
        }
        assert(lv.take(ls.len() as int) =~= lv);
        push_str(&mut s, Colors::RESET);
        push_str(&mut s, "\n");
        s
    }

    /// A boxed header line holding `title`, padded to 46 characters.
    pub fn header(title: &str) -> (s: String)
        ensures
            s@ == "\n\u{2554}\u{2550}\u{2550}\u{2550}\u{2550}\u{2550}\u{2550}\u{2550}\u{2550}\u{2550}\u{2550}\u{2550}\u{2550}\u{2550}\u{2550}\u{2550}\u{2550}\u{2550}\u{2550}\u{2550}\u{2550}\u{2550}\u{2550}\u{2550}\u{2550}\u{2550}\u{2550}\u{2550}\u{2550}\u{2550}\u{2550}\u{2550}\u{2550}\u{2550}\u{2550}\u{2550}\u{2550}\u{2550}\u{2550}\u{2550}\u{2550}\u{2550}\u{2550}\u{2550}\u{2550}\u{2550}\u{2550}\u{2557}\n\u{2551}  "@ + pad_right(title@, 46) + " \u{2551}\n\u{255a}\u{2550}\u{2550}\u{2550}\u{2550}\u{2550}\u{2550}\u{2550}\u{2550}\u{2550}\u{2550}\u{2550}\u{2550}\u{2550}\u{2550}\u{2550}\u{2550}\u{2550}\u{2550}\u{2550}\u{2550}\u{2550}\u{2550}\u{2550}\u{2550}\u{2550}\u{2550}\u{2550}\u{2550}\u{2550}\u{2550}\u{2550}\u{2550}\u{2550}\u{2550}\u{2550}\u{2550}\u{2550}\u{2550}\u{2550}\u{2550}\u{2550}\u{2550}\u{2550}\u{2550}\u{2550}\u{2550}\u{255d}\n"@,
    {
        let mut s = String::new();
        push_str(&mut s, "\n\u{2554}\u{2550}\u{2550}\u{2550}\u{2550}\u{2550}\u{2550}\u{2550}\u{2550}\u{2550}\u{2550}\u{2550}\u{2550}\u{2550}\u{2550}\u{2550}\u{2550}\u{2550}\u{2550}\u{2550}\u{2550}\u{2550}\u{2550}\u{2550}\u{2550}\u{2550}\u{2550}\u{2550}\u{2550}\u{2550}\u{2550}\u{2550}\u{2550}\u{2550}\u{2550}\u{2550}\u{2550}\u{2550}\u{2550}\u{2550}\u{2550}\u{2550}\u{2550}\u{2550}\u{2550}\u{2550}\u{2550}\u{2557}\n\u{2551}  ");
        push_str(&mut s, title);
        let n = chars_of(title).len();
        let ghost before = s@;
        if n < 46 {
            let mut k: usize = n;
            while k < 46
                invariant
                    n <= k <= 46,
                    n == title@.len(),
                    s@ == before + Seq::new((k - n) as nat, |i: int| ' '),
                decreases 46 - k,
            {
                push_char(&mut s, ' ');
                assert(s@ =~= before + Seq::new((k + 1 - n) as nat, |i: int| ' '));
                k = k + 1;
            }
        } else {
            assert(s@ =~= before);
        }
        push_str(&mut s, " \u{2551}\n\u{255a}\u{2550}\u{2550}\u{2550}\u{2550}\u{2550}\u{2550}\u{2550}\u{2550}\u{2550}\u{2550}\u{2550}\u{2550}\u{2550}\u{2550}\u{2550}\u{2550}\u{2550}\u{2550}\u{2550}\u{2550}\u{2550}\u{2550}\u{2550}\u{2550}\u{2550}\u{2550}\u{2550}\u{2550}\u{2550}\u{2550}\u{2550}\u{2550}\u{2550}\u{2550}\u{2550}\u{2550}\u{2550}\u{2550}\u{2550}\u{2550}\u{2550}\u{2550}\u{2550}\u{2550}\u{2550}\u{2550}\u{255d}\n");
        s
    }

    /// `text` cut to its first `max_len - 3` bytes followed by `...` when longer
    /// than `max_len` bytes.
    pub fn truncate(text: &str, max_len: usize) -> (s: String)
        requires
            text.len() > max_len ==> max_len >= 3 && is_char_boundary(text.spec_bytes(), max_len - 3),
        ensures
            text.len() <= max_len ==> s@ == text@,
            text.len() > max_len ==> exists|h: Seq<char>|
                encode_utf8(h) == text.spec_bytes().subrange(0, max_len - 3) && s@ == h + "..."@,
    {
        if text.len() <= max_len {
            text.to_owned()
        } else {
            let (head, _rest) = text.split_at(max_len - 3);
            let mut s = String::new();
            push_str(&mut s, head);
            push_str(&mut s, "...");
            assert(encode_utf8(head@) == text.spec_bytes().subrange(0, max_len - 3));
            s
        }
    }
}

} // verus!
