use vstd::prelude::*;
use vstd::string::*;

use crate::item::{Body, Data, Exception, Frame, Item, Message, Trace};

verus! {

/// Lowercase hexadecimal digit of `d` (below 16).
pub open spec fn hex_digit(d: nat) -> char {
    if d < 10 {
        ('0' as nat + d) as char
    } else {
        ('a' as nat + (d - 10)) as char
    }
}

/// How one character stands inside a JSON string literal: `"` and `\`
/// after a backslash; backspace, tab, line feed, form feed and carriage
/// return as `\b \t \n \f \r`; any other character below U+0020 as `\u00`
/// and two lowercase hex digits; every other character as it is.
pub open spec fn escaped_char(c: char) -> Seq<char> {
    if c == '"' {
        seq!['\\', '"']
    } else if c == '\\' {
        seq!['\\', '\\']
    } else if c == '\u{8}' {
        seq!['\\', 'b']
    } else if c == '\t' {
        seq!['\\', 't']
    } else if c == '\n' {
        seq!['\\', 'n']
    } else if c == '\u{c}' {
        seq!['\\', 'f']
    } else if c == '\r' {
        seq!['\\', 'r']
    } else if (c as nat) < 0x20 {
        seq!['\\', 'u', '0', '0', hex_digit(c as nat / 16), hex_digit(c as nat % 16)]
    } else {
        seq![c]
    }
}

pub open spec fn escaped(s: Seq<char>) -> Seq<char>
    decreases s.len(),
{
    if s.len() == 0 {
        Seq::empty()
    } else {
        escaped(s.drop_last()) + escaped_char(s.last())
    }
}

/// The JSON string literal that stands for the text `s`.
pub open spec fn json_quoted(s: Seq<char>) -> Seq<char> {
    seq!['"'] + escaped(s) + seq!['"']
}

/// Relies on `serde_json::to_string` applied to a `str`: it writes the
/// quoted, escaped text into a `Vec`, which cannot fail.
#[verifier::external_body]
fn quote(s: &str) -> (r: Option<String>)
    ensures
        r is Some,
        r matches Some(q) ==> q@ == json_quoted(s@),
{
    serde_json::to_string(s).ok()
}

fn quoted(s: &str) -> (r: String)
    ensures
        r@ == json_quoted(s@),
{
    match quote(s) {
        Some(q) => q,
        None => String::new(),
    }
}

pub open spec fn digit_text(d: nat) -> Seq<char> {
    if d == 0 {
        "0"@
    } else if d == 1 {
        "1"@
    } else if d == 2 {
        "2"@
    } else if d == 3 {
        "3"@
    } else if d == 4 {
        "4"@
    } else if d == 5 {
        "5"@
    } else if d == 6 {
        "6"@
    } else if d == 7 {
        "7"@
    } else if d == 8 {
        "8"@
    } else {
        "9"@
    }
}

/// Decimal digits of `n`, without leading zeros.
pub open spec fn decimal(n: nat) -> Seq<char>
    decreases n,
{
    if n < 10 {
        digit_text(n)
    } else {
        decimal(n / 10) + digit_text(n % 10)
    }
}

fn digit_str(d: u32) -> (r: &'static str)
    requires
        d < 10,
    ensures
        r@ == digit_text(d as nat),
{
    if d == 0 {
        "0"
    } else if d == 1 {
        "1"
    } else if d == 2 {
        "2"
    } else if d == 3 {
        "3"
    } else if d == 4 {
        "4"
    } else if d == 5 {
        "5"
    } else if d == 6 {
        "6"
    } else if d == 7 {
        "7"
    } else if d == 8 {
        "8"
    } else {
        "9"
    }
}

/// The decimal text of `n`.
pub fn decimal_text(n: u32) -> (r: String)
    ensures
        r@ == decimal(n as nat),
{
    let mut out = String::from_str(digit_str(n % 10));
    let mut m: u32 = n / 10;
    while m > 0
        invariant
            m > 0 ==> decimal(n as nat) == decimal(m as nat) + out@,
            m == 0 ==> decimal(n as nat) == out@,
        decreases m,
    {
        let d = digit_str(m % 10);
        out = String::from_str(d).concat(out.as_str());
        m = m / 10;
    }
    out
}

/// A text as it stands in the document: JSON-quoted where `quote` holds,
/// verbatim (already a JSON literal) where it does not.
pub open spec fn text_json(t: Seq<char>, quote: bool) -> Seq<char> {
    if quote {
        json_quoted(t)
    } else {
        t
    }
}

/// The extra entries of a message, each as `,"key":value`.
pub open spec fn extras_json(extra: Seq<(String, String)>, quote: bool) -> Seq<char>
    decreases extra.len(),
{
    if extra.len() == 0 {
        Seq::empty()
    } else {
        extras_json(extra.drop_last(), quote) + ","@ + text_json(extra.last().0@, quote) + ":"@
            + extra.last().1@
    }
}

pub open spec fn message_json(m: Message, quote: bool) -> Seq<char> {
    "{\"body\":"@ + text_json(m.body@, quote) + extras_json(m.extra@, quote) + "}"@
}

pub open spec fn number_json(n: Option<u32>) -> Seq<char> {
    match n {
        Some(v) => decimal(v as nat),
        None => "null"@,
    }
}

pub open spec fn frame_json(f: Frame, quote: bool) -> Seq<char> {
    "{\"filename\":"@ + text_json(f.filename@, quote) + ",\"lineno\":"@ + number_json(f.lineno)
        + ",\"colno\":"@ + number_json(f.colno) + "}"@
}

/// The frames, separated by commas.
pub open spec fn frames_json(frames: Seq<Frame>, quote: bool) -> Seq<char>
    decreases frames.len(),
{
    if frames.len() == 0 {
        Seq::empty()
    } else if frames.len() == 1 {
        frame_json(frames[0], quote)
    } else {
        frames_json(frames.drop_last(), quote) + ","@ + frame_json(frames.last(), quote)
    }
}

pub open spec fn body_json(b: Body, quote: bool) -> Seq<char> {
    match b {
        Body::Message(m) => "{\"message\":"@ + message_json(m, quote) + "}"@,
        Body::Trace(t) => "{\"trace\":{\"frames\":["@ + frames_json(t.frames@, quote)
            + "],\"exception\":{\"class\":"@ + text_json(t.exception.class@, quote) + "}}}"@,
    }
}

/// `key` and the text where there is one; nothing where there is none.
pub open spec fn optional_json(key: Seq<char>, v: Option<String>, quote: bool) -> Seq<char> {
    match v {
        Some(s) => key + text_json(s@, quote),
        None => Seq::empty(),
    }
}

pub open spec fn document(i: Item, quote: bool) -> Seq<char> {
    "{\"data\":{\"body\":"@ + body_json(i.data.body, quote) + ",\"level\":\""@
        + i.data.level.spec_name() + "\""@ + optional_json(",\"language\":"@, i.data.language, quote)
        + optional_json(",\"context\":"@, i.data.context, quote) + "}}"@
}

/// The JSON document posted for an item.
pub open spec fn item_json(i: Item) -> Seq<char> {
    document(i, true)
}

/// The document of an item whose texts are JSON literals already.
pub open spec fn rendered_json(i: Item) -> Seq<char> {
    document(i, false)
}

pub open spec fn option_quoted(o: Option<String>, q: Option<String>) -> bool {
    match o {
        Some(s) => q matches Some(t) && t@ == json_quoted(s@),
        None => q.is_none(),
    }
}

pub open spec fn message_quoted(m: Message, q: Message) -> bool {
    &&& q.body@ == json_quoted(m.body@)
    &&& q.extra@.len() == m.extra@.len()
    &&& forall|k: int|
        0 <= k < m.extra@.len() ==> (#[trigger] q.extra@[k]).0@ == json_quoted(m.extra@[k].0@)
            && q.extra@[k].1@ == m.extra@[k].1@
}

pub open spec fn frame_quoted(f: Frame, q: Frame) -> bool {
    &&& q.filename@ == json_quoted(f.filename@)
    &&& q.lineno == f.lineno
    &&& q.colno == f.colno
}

pub open spec fn frames_quoted(f: Seq<Frame>, q: Seq<Frame>) -> bool {
    &&& q.len() == f.len()
    &&& forall|k: int| 0 <= k < f.len() ==> frame_quoted(f[k], #[trigger] q[k])
}

/// `q` is `i` with each of its texts replaced by its JSON literal; the
/// values of extra entries, JSON already, stay as they are.
pub open spec fn texts_quoted(i: Item, q: Item) -> bool {
    &&& q.data.level == i.data.level
    &&& option_quoted(i.data.language, q.data.language)
    &&& option_quoted(i.data.context, q.data.context)
    &&& match (i.data.body, q.data.body) {
        (Body::Message(m), Body::Message(n)) => message_quoted(m, n),
        (Body::Trace(t), Body::Trace(u)) => frames_quoted(t.frames@, u.frames@)
            && u.exception.class@ == json_quoted(t.exception.class@),
        _ => false,
    }
}

proof fn lemma_extras_quoted(e: Seq<(String, String)>, q: Seq<(String, String)>)
    requires
        q.len() == e.len(),
        forall|k: int|
            0 <= k < e.len() ==> (#[trigger] q[k]).0@ == json_quoted(e[k].0@) && q[k].1@ == e[k].1@,
    ensures
        extras_json(q, false) == extras_json(e, true),
    decreases e.len(),
{
    if e.len() > 0 {
        let (ed, qd) = (e.drop_last(), q.drop_last());
        assert forall|k: int| 0 <= k < ed.len() implies (#[trigger] qd[k]).0@ == json_quoted(ed[k].0@)
            && qd[k].1@ == ed[k].1@ by {
            assert(qd[k] == q[k] && ed[k] == e[k]);
        }
        lemma_extras_quoted(ed, qd);
        assert(q.last() == q[q.len() - 1]);
    }
}

proof fn lemma_frames_quoted(f: Seq<Frame>, q: Seq<Frame>)
    requires
        frames_quoted(f, q),
    ensures
        frames_json(q, false) == frames_json(f, true),
    decreases f.len(),
{
    if f.len() == 1 {
        assert(frame_quoted(f[0], q[0]));
    } else if f.len() > 1 {
        let (fd, qd) = (f.drop_last(), q.drop_last());
        assert forall|k: int| 0 <= k < fd.len() implies frame_quoted(fd[k], #[trigger] qd[k]) by {
            assert(qd[k] == q[k] && fd[k] == f[k]);
        }
        lemma_frames_quoted(fd, qd);
        assert(frame_quoted(f[f.len() - 1], q[q.len() - 1]));
    }
}

/// Rendering an item whose texts were quoted gives the item's document.
pub proof fn lemma_render_quoted(i: Item, q: Item)
    requires
        texts_quoted(i, q),
    ensures
        rendered_json(q) == item_json(i),
{
    match (i.data.body, q.data.body) {
        (Body::Message(m), Body::Message(n)) => {
            lemma_extras_quoted(m.extra@, n.extra@);
        },
        (Body::Trace(t), Body::Trace(u)) => {
            lemma_frames_quoted(t.frames@, u.frames@);
        },
        _ => {},
    }
}

fn render_message(m: &Message) -> (r: String)
    ensures
        r@ == message_json(*m, false),
{
    let mut out = String::from_str("{\"body\":");
    out.append(m.body.as_str());
    let ghost head = out@;
    let mut i: usize = 0;
    while i < m.extra.len()
        invariant
            i <= m.extra@.len(),
            out@ == head + extras_json(m.extra@.subrange(0, i as int), false),
        decreases m.extra.len() - i,
    {
        let entry = &m.extra[i];
        out.append(",");
        out.append(entry.0.as_str());
        out.append(":");
        out.append(entry.1.as_str());
        proof {
            let next = m.extra@.subrange(0, i + 1);
            assert(next.drop_last() =~= m.extra@.subrange(0, i as int));
        }
        i = i + 1;
    }
    proof {
        assert(m.extra@.subrange(0, m.extra@.len() as int) =~= m.extra@);
    }
    out.append("}");
    out
}

fn render_number(n: Option<u32>) -> (r: String)
    ensures
        r@ == number_json(n),
{
    match n {
        Some(v) => decimal_text(v),
        None => String::from_str("null"),
    }
}

fn render_frame(f: &Frame) -> (r: String)
    ensures
        r@ == frame_json(*f, false),
{
    let mut out = String::from_str("{\"filename\":");
    out.append(f.filename.as_str());
    out.append(",\"lineno\":");
    let line = render_number(f.lineno);
    out.append(line.as_str());
    out.append(",\"colno\":");
    let col = render_number(f.colno);
    out.append(col.as_str());
    out.append("}");
    out
}

fn render_body(b: &Body) -> (r: String)
    ensures
        r@ == body_json(*b, false),
{
    match b {
        Body::Message(m) => {
            let mut out = String::from_str("{\"message\":");
            let inner = render_message(m);
            out.append(inner.as_str());
            out.append("}");
            out
        },
        Body::Trace(t) => {
            let mut out = String::from_str("{\"trace\":{\"frames\":[");
            let ghost head = out@;
            let mut i: usize = 0;
            while i < t.frames.len()
                invariant
                    i <= t.frames@.len(),
                    out@ == head + frames_json(t.frames@.subrange(0, i as int), false),
                decreases t.frames.len() - i,
            {
                let frame = render_frame(&t.frames[i]);
                if i > 0 {
                    out.append(",");
                }
                out.append(frame.as_str());
                proof {
                    let next = t.frames@.subrange(0, i + 1);
                    assert(next.drop_last() =~= t.frames@.subrange(0, i as int));
                    if i == 0 {
                        assert(frames_json(t.frames@.subrange(0, 0), false) == Seq::<char>::empty());
                        assert(out@ =~= head + frame_json(t.frames@[0], false));
                    }
                }
                i = i + 1;
            }
            proof {
                assert(t.frames@.subrange(0, t.frames@.len() as int) =~= t.frames@);
            }
            out.append("],\"exception\":{\"class\":");
            out.append(t.exception.class.as_str());
            out.append("}}}");
            out
        },
    }
}

fn render_optional(out: &mut String, key: &str, v: &Option<String>)
    ensures
        final(out)@ == old(out)@ + optional_json(key@, *v, false),
{
    match v {
        Some(s) => {
            out.append(key);
            out.append(s.as_str());
        },
        None => {
            proof {
                assert(old(out)@ + optional_json(key@, *v, false) =~= old(out)@);
            }
        },
    }
}

fn quote_option(o: &Option<String>) -> (r: Option<String>)
    ensures
        option_quoted(*o, r),
{
    match o {
        Some(s) => Some(quoted(s.as_str())),
        None => None,
    }
}

fn quote_message(m: &Message) -> (r: Message)
    ensures
        message_quoted(*m, r),
{
    let body = quoted(m.body.as_str());
    let mut extra: Vec<(String, String)> = Vec::new();
    let mut i: usize = 0;
    while i < m.extra.len()
        invariant
            i <= m.extra@.len(),
            extra@.len() == i,
            forall|k: int|
                0 <= k < i ==> (#[trigger] extra@[k]).0@ == json_quoted(m.extra@[k].0@)
                    && extra@[k].1@ == m.extra@[k].1@,
        decreases m.extra.len() - i,
    {
        let entry = &m.extra[i];
        let key = quoted(entry.0.as_str());
        extra.push((key, entry.1.clone()));
        i = i + 1;
    }
    Message { body, extra }
}

fn quote_frames(frames: &Vec<Frame>) -> (r: Vec<Frame>)
    ensures
        frames_quoted(frames@, r@),
{
    let mut out: Vec<Frame> = Vec::new();
    let mut i: usize = 0;
    while i < frames.len()
        invariant
            i <= frames@.len(),
            out@.len() == i,
            forall|k: int| 0 <= k < i ==> frame_quoted(frames@[k], #[trigger] out@[k]),
        decreases frames.len() - i,
    {
        let f = &frames[i];
        let filename = quoted(f.filename.as_str());
        out.push(Frame { filename, lineno: f.lineno, colno: f.colno });
        i = i + 1;
    }
    out
}

impl Item {
    /// The item with each of its texts replaced by its JSON string literal:
    /// the message, the keys of extra entries, file names, the exception
    /// class, the language and the context.
    pub fn quote_texts(&self) -> (r: Item)
        ensures
            texts_quoted(*self, r),
    {
        let body = match &self.data.body {
            Body::Message(m) => Body::Message(quote_message(m)),
            Body::Trace(t) => {
                let frames = quote_frames(&t.frames);
                let class = quoted(t.exception.class.as_str());
                Body::Trace(Trace { frames, exception: Exception { class } })
            },
        };
        let language = quote_option(&self.data.language);
        let context = quote_option(&self.data.context);
        Item { data: Data { body, level: self.data.level, language, context } }
    }

    /// The JSON document of an item whose texts are JSON literals already
    /// (see `quote_texts`): each is written as it stands. `data` holds the
    /// body, the level, and the language and context only where they are set.
    pub fn render(&self) -> (r: String)
        ensures
            r@ == rendered_json(*self),
    {
        let mut out = String::from_str("{\"data\":{\"body\":");
        let body = render_body(&self.data.body);
        out.append(body.as_str());
        out.append(",\"level\":\"");
        let level = self.data.level.name();
        out.append(level.as_str());
        out.append("\"");
        render_optional(&mut out, ",\"language\":", &self.data.language);
        render_optional(&mut out, ",\"context\":", &self.data.context);
        out.append("}}");
        out
    }

    /// The JSON document posted for the item.
    pub fn to_json(&self) -> (r: String)
        ensures
            r@ == item_json(*self),
    {
        let quoted_item = self.quote_texts();
        proof {
            lemma_render_quoted(*self, quoted_item);
        }
        quoted_item.render()
    }
}

} // verus!
