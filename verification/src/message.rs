//! Outbound messages and their wire encoding.
//!
//! A message is either a plain system line or a line attributed to a player.
//! The destination accepts a JSON body whose fields decide between the two
//! shapes: `{"content": ...}` for a plain message and
//! `{"username": ..., "content": ...}` for an attributed one.

use vstd::prelude::*;

verus! {

/// The unit of delivery: one outbound notification.
#[derive(Debug, Clone, PartialEq, Eq)]
pub enum Message {
    /// A plain system message.
    Simple { content: String },
    /// A message attributed to a named player.
    Player { username: String, content: String },
}

/// Mathematical model of a `Message`: the same two shapes over character
/// sequences.
pub enum MessageView {
    Simple { content: Seq<char> },
    Player { username: Seq<char>, content: Seq<char> },
}

impl View for Message {
    type V = MessageView;

    open spec fn view(&self) -> MessageView {
        match self {
            Message::Simple { content } => MessageView::Simple { content: content@ },
            Message::Player { username, content } => MessageView::Player {
                username: username@,
                content: content@,
            },
        }
    }
}

/// Builds the plain variant from borrowed text.
pub fn simple_message(content: &str) -> (m: Message)
    ensures
        m@ == (MessageView::Simple { content: content@ }),
{
    Message::Simple { content: content.to_string() }
}

/// Builds the attributed variant from borrowed text.
pub fn player_message(username: &str, content: &str) -> (m: Message)
    ensures
        m@ == (MessageView::Player { username: username@, content: content@ }),
{
    Message::Player { username: username.to_string(), content: content.to_string() }
}

/// The lower-case hexadecimal digit for a value below 16.
pub open spec fn spec_hex_digit(v: int) -> char {
    if v == 0 {
        '0'
    } else if v == 1 {
        '1'
    } else if v == 2 {
        '2'
    } else if v == 3 {
        '3'
    } else if v == 4 {
        '4'
    } else if v == 5 {
        '5'
    } else if v == 6 {
        '6'
    } else if v == 7 {
        '7'
    } else if v == 8 {
        '8'
    } else if v == 9 {
        '9'
    } else if v == 10 {
        'a'
    } else if v == 11 {
        'b'
    } else if v == 12 {
        'c'
    } else if v == 13 {
        'd'
    } else if v == 14 {
        'e'
    } else {
        'f'
    }
}

/// How one character appears inside a JSON string literal: the quote and the
/// backslash are escaped, the five control characters with short escapes use
/// them, every other control character below space becomes `\u00` plus two
/// hex digits, and everything else stands for itself.
pub open spec fn spec_escape_char(c: char) -> Seq<char> {
    if c == '"' {
        seq!['\\', '"']
    } else if c == '\\' {
        seq!['\\', '\\']
    } else if c == '\u{0008}' {
        seq!['\\', 'b']
    } else if c == '\u{000c}' {
        seq!['\\', 'f']
    } else if c == '\n' {
        seq!['\\', 'n']
    } else if c == '\r' {
        seq!['\\', 'r']
    } else if c == '\t' {
        seq!['\\', 't']
    } else if (c as u32) < 32 {
        seq!['\\', 'u', '0', '0', spec_hex_digit((c as u32) as int / 16), spec_hex_digit(
            (c as u32) as int % 16,
        )]
    } else {
        seq![c]
    }
}

/// The JSON string-literal escaping of a whole character sequence.
pub open spec fn spec_escape(s: Seq<char>) -> Seq<char>
    decreases s.len(),
{
    if s.len() == 0 {
        Seq::<char>::empty()
    } else {
        spec_escape(s.drop_last()) + spec_escape_char(s.last())
    }
}

/// The JSON body a message is delivered as: field presence alone tells the
/// two shapes apart.
pub open spec fn spec_body(m: MessageView) -> Seq<char> {
    match m {
        MessageView::Simple { content } => "{\"content\":\""@ + spec_escape(content) + "\"}"@,
        MessageView::Player { username, content } => "{\"username\":\""@ + spec_escape(username)
            + "\",\"content\":\""@ + spec_escape(content) + "\"}"@,
    }
}

/// The lower-case hexadecimal digit for a value below 16.
fn hex_digit(v: u8) -> (r: &'static str)
    requires
        v < 16,
    ensures
        r@ == seq![spec_hex_digit(v as int)],
{
    let r: &'static str = match v {
        0 => "0",
        1 => "1",
        2 => "2",
        3 => "3",
        4 => "4",
        5 => "5",
        6 => "6",
        7 => "7",
        8 => "8",
        9 => "9",
        10 => "a",
        11 => "b",
        12 => "c",
        13 => "d",
        14 => "e",
        _ => "f",
    };
    proof {
        reveal_strlit("0");
        reveal_strlit("1");
        reveal_strlit("2");
        reveal_strlit("3");
        reveal_strlit("4");
        reveal_strlit("5");
        reveal_strlit("6");
        reveal_strlit("7");
        reveal_strlit("8");
        reveal_strlit("9");
        reveal_strlit("a");
        reveal_strlit("b");
        reveal_strlit("c");
        reveal_strlit("d");
        reveal_strlit("e");
        reveal_strlit("f");
        assert(r@ =~= seq![spec_hex_digit(v as int)]);
    }
    r
}

/// Escapes text for inclusion in a JSON string literal.
pub fn json_escape(s: &str) -> (r: String)
    ensures
        r@ == spec_escape(s@),
{
    let n = s.unicode_len();
    let mut r = String::new();
    proof {
        assert(s@.take(0) =~= Seq::<char>::empty());
    }
    let mut i: usize = 0;
    while i < n
        invariant
            i <= n,
            n == s@.len(),
            r@ == spec_escape(s@.take(i as int)),
        decreases n - i,
    {
        let c = s.get_char(i);
        if c == '"' {
            r.append("\\\"");
            proof {
                reveal_strlit("\\\"");
                assert("\\\""@ =~= spec_escape_char(c));
            }
        } else if c == '\\' {
            r.append("\\\\");
            proof {
                reveal_strlit("\\\\");
                assert("\\\\"@ =~= spec_escape_char(c));
            }
        } else if c == '\u{0008}' {
            r.append("\\b");
            proof {
                reveal_strlit("\\b");
                assert("\\b"@ =~= spec_escape_char(c));
            }
        } else if c == '\u{000c}' {
            r.append("\\f");
            proof {
                reveal_strlit("\\f");
                assert("\\f"@ =~= spec_escape_char(c));
            }
        } else if c == '\n' {
            r.append("\\n");
            proof {
                reveal_strlit("\\n");
                assert("\\n"@ =~= spec_escape_char(c));
            }
        } else if c == '\r' {
            r.append("\\r");
            proof {
                reveal_strlit("\\r");
                assert("\\r"@ =~= spec_escape_char(c));
            }
        } else if c == '\t' {
            r.append("\\t");
            proof {
                reveal_strlit("\\t");
                assert("\\t"@ =~= spec_escape_char(c));
            }
        } else if (c as u32) < 32 {
            let v = c as u32;
            r.append("\\u00");
            r.append(hex_digit((v / 16) as u8));
            r.append(hex_digit((v % 16) as u8));
            proof {
                reveal_strlit("\\u00");
                assert("\\u00"@ + seq![spec_hex_digit(v as int / 16)] + seq![
                    spec_hex_digit(v as int % 16),
                ] =~= spec_escape_char(c));
            }
        } else {
            let piece = s.substring_char(i, i + 1);
            r.append(piece);
            proof {
                assert(s@.subrange(i as int, i + 1) =~= seq![s@[i as int]]);
                assert(seq![s@[i as int]] =~= spec_escape_char(c));
            }
        }
        proof {
            assert(s@.take(i + 1).drop_last() =~= s@.take(i as int));
            assert(s@.take(i + 1).last() == s@[i as int]);
        }
        i += 1;
    }
    proof {
        assert(s@.take(n as int) =~= s@);
    }
    r
}

/// Serializes a message to the JSON body the destination accepts:
/// `{"content": ...}` for a plain message, `{"username": ..., "content": ...}`
/// for an attributed one.
pub fn message_body(m: &Message) -> (r: String)
    ensures
        r@ == spec_body(m@),
{
    match m {
        Message::Simple { content } => {
            let mut r = String::from_str("{\"content\":\"");
            let esc = json_escape(content.as_str());
            r.append(esc.as_str());
            r.append("\"}");
            r
        },
        Message::Player { username, content } => {
            let mut r = String::from_str("{\"username\":\"");
            let user_esc = json_escape(username.as_str());
            r.append(user_esc.as_str());
            r.append("\",\"content\":\"");
            let content_esc = json_escape(content.as_str());
            r.append(content_esc.as_str());
            r.append("\"}");
            r
        },
    }
}

} // verus!
