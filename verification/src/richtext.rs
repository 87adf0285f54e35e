//! Rich-text tokens and their rendering into the destination's markup.
//!
//! A session event that carries a description carries it as an ordered
//! sequence of tokens referencing named game entities.  Rendering turns the
//! sequence into one line of marked-up text: a muted/footnote prefix, then
//! each token in order with no separator.  Named references are bolded; an
//! item reference is additionally wrapped in italic when useful, underline
//! when progression, and strikethrough when a trap, in exactly that nesting
//! order.

use vstd::prelude::*;

verus! {

/// One component of a rich-text event description, reduced to the values the
/// renderer reads: the display text and, for items, the three flags.
#[derive(Debug, Clone, PartialEq, Eq)]
pub enum RichText {
    /// A reference to a player, by display name.
    Player { name: String },
    /// A player-like name with no player object behind it.
    PlayerName { name: String },
    /// An item reference with its three independent annotation flags.
    Item { name: String, progression: bool, useful: bool, trap: bool },
    /// A reference to a location, by display name.
    Location { name: String },
    /// A reference to an entrance, by name.
    EntranceName { name: String },
    /// A colored text span; the color is intentionally discarded.
    Color { text: String },
    /// Plain text, rendered unchanged.
    Text { text: String },
}

/// Mathematical model of a token: the same shapes over character sequences.
pub enum RichTextView {
    Player { name: Seq<char> },
    PlayerName { name: Seq<char> },
    Item { name: Seq<char>, progression: bool, useful: bool, trap: bool },
    Location { name: Seq<char> },
    EntranceName { name: Seq<char> },
    Color { text: Seq<char> },
    Text { text: Seq<char> },
}

impl View for RichText {
    type V = RichTextView;

    open spec fn view(&self) -> RichTextView {
        match self {
            RichText::Player { name } => RichTextView::Player { name: name@ },
            RichText::PlayerName { name } => RichTextView::PlayerName { name: name@ },
            RichText::Item { name, progression, useful, trap } => RichTextView::Item {
                name: name@,
                progression: *progression,
                useful: *useful,
                trap: *trap,
            },
            RichText::Location { name } => RichTextView::Location { name: name@ },
            RichText::EntranceName { name } => RichTextView::EntranceName { name: name@ },
            RichText::Color { text } => RichTextView::Color { text: text@ },
            RichText::Text { text } => RichTextView::Text { text: text@ },
        }
    }
}

/// The views of a token sequence, in order.
pub open spec fn token_views(ts: Seq<RichText>) -> Seq<RichTextView> {
    ts.map_values(|t: RichText| t@)
}

pub open spec fn spec_bold(s: Seq<char>) -> Seq<char> {
    "**"@ + s + "**"@
}

pub open spec fn spec_italic(s: Seq<char>) -> Seq<char> {
    "*"@ + s + "*"@
}

pub open spec fn spec_underline(s: Seq<char>) -> Seq<char> {
    "__"@ + s + "__"@
}

pub open spec fn spec_strikethrough(s: Seq<char>) -> Seq<char> {
    "~~"@ + s + "~~"@
}

/// An item's markup: bold name, then italic if useful, then underline if
/// progression, then strikethrough if trap — innermost to outermost.
pub open spec fn spec_item_markup(
    name: Seq<char>,
    progression: bool,
    useful: bool,
    trap: bool,
) -> Seq<char> {
    let base = spec_bold(name);
    let with_useful = if useful {
        spec_italic(base)
    } else {
        base
    };
    let with_progression = if progression {
        spec_underline(with_useful)
    } else {
        with_useful
    };
    if trap {
        spec_strikethrough(with_progression)
    } else {
        with_progression
    }
}

/// The rendering of a single token.
pub open spec fn spec_render_token(t: RichTextView) -> Seq<char> {
    match t {
        RichTextView::Player { name } => spec_bold(name),
        RichTextView::PlayerName { name } => spec_bold(name),
        RichTextView::Item { name, progression, useful, trap } => spec_item_markup(
            name,
            progression,
            useful,
            trap,
        ),
        RichTextView::Location { name } => spec_bold(name),
        RichTextView::EntranceName { name } => spec_bold(name),
        RichTextView::Color { text } => spec_bold(text),
        RichTextView::Text { text } => text,
    }
}

/// The concatenation of the renderings of a token sequence, in order, with no
/// separator.
pub open spec fn spec_render_tokens(ts: Seq<RichTextView>) -> Seq<char>
    decreases ts.len(),
{
    if ts.len() == 0 {
        Seq::<char>::empty()
    } else {
        spec_render_tokens(ts.drop_last()) + spec_render_token(ts.last())
    }
}

/// The full rendering of a token sequence: the muted/footnote prefix, then
/// each token's rendering in input order.
pub open spec fn spec_render(ts: Seq<RichTextView>) -> Seq<char> {
    "-# "@ + spec_render_tokens(ts)
}

/// Wraps text in a fixed pair of surrounding markers.
fn wrap(inner: &str, pre: &str, post: &str) -> (r: String)
    ensures
        r@ == pre@ + inner@ + post@,
{
    let mut r = String::from_str(pre);
    r.append(inner);
    r.append(post);
    r
}

/// Renders one token into the destination's markup.
pub fn render_token(t: &RichText) -> (r: String)
    ensures
        r@ == spec_render_token(t@),
{
    match t {
        RichText::Player { name } => wrap(name.as_str(), "**", "**"),
        RichText::PlayerName { name } => wrap(name.as_str(), "**", "**"),
        RichText::Item { name, progression, useful, trap } => {
            let mut s = wrap(name.as_str(), "**", "**");
            if *useful {
                s = wrap(s.as_str(), "*", "*");
            }
            if *progression {
                s = wrap(s.as_str(), "__", "__");
            }
            if *trap {
                s = wrap(s.as_str(), "~~", "~~");
            }
            s
        },
        RichText::Location { name } => wrap(name.as_str(), "**", "**"),
        RichText::EntranceName { name } => wrap(name.as_str(), "**", "**"),
        RichText::Color { text } => wrap(text.as_str(), "**", "**"),
        RichText::Text { text } => text.clone(),
    }
}

/// Renders a whole token sequence: the muted prefix, then every token in
/// order.
pub fn format_rich_text(rt: &Vec<RichText>) -> (r: String)
    ensures
        r@ == spec_render(token_views(rt@)),
{
    let mut out = String::from_str("-# ");
    proof {
        assert(token_views(rt@).take(0) =~= Seq::<RichTextView>::empty());
        assert(out@ =~= "-# "@ + spec_render_tokens(token_views(rt@).take(0)));
    }
    let n = rt.len();
    let mut i: usize = 0;
    while i < n
        invariant
            i <= n,
            n == rt@.len(),
            out@ == "-# "@ + spec_render_tokens(token_views(rt@).take(i as int)),
        decreases n - i,
    {
        let piece = render_token(&rt[i]);
        out.append(piece.as_str());
        proof {
            let toks = token_views(rt@);
            assert(toks.take(i + 1).drop_last() =~= toks.take(i as int));
            assert(toks.take(i + 1).last() == toks[i as int]);
        }
        i += 1;
    }
    proof {
        assert(token_views(rt@).take(n as int) =~= token_views(rt@));
    }
    out
}

/// Rendering is a pure function of the token sequence: two inputs whose token
/// views agree element by element render to the same string.
pub proof fn lemma_render_deterministic(a: Seq<RichTextView>, b: Seq<RichTextView>)
    requires
        a =~= b,
    ensures
        spec_render(a) == spec_render(b),
{
}

/// An item carrying all three annotations nests its markers exactly as
/// strikethrough(underline(italic(bold(name)))).
pub proof fn lemma_item_full_nesting(name: Seq<char>)
    ensures
        spec_item_markup(name, true, true, true) == spec_strikethrough(
            spec_underline(spec_italic(spec_bold(name))),
        ),
{
}

} // verus!
