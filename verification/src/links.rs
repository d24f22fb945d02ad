//! Click-to-chat link handling for `whatsapp:` URLs and their https twins.
//!
//! Every link shape that is accepted is translated into a
//! `https://web.whatsapp.com/` URL; anything else translates to `None`.

use vstd::prelude::*;
use vstd::utf8::encode_utf8;
use crate::slot::{OnceCell, Slot, once_after_set, slot_after_take, slot_taken};
use crate::text::{
    char_pred, chars_of, has_char, owned, push_char, str_eq, str_has_char, trim, trim_char,
    starts_with, trim_start_by, trim_start_char, trimmed, trimmed_char,
};

verus! {

/// The parts of a parsed URL that the library reads, as plain values.
#[derive(Debug, Clone, PartialEq, Eq)]
pub struct UrlParts {
    pub scheme: String,
    /// `Url::host_str`.
    pub host: Option<String>,
    /// `Url::path`, still percent-encoded.
    pub path: String,
    /// `Url::query_pairs`, percent-decoded, in order.
    pub query: Vec<(String, String)>,
    /// `Url::to_file_path`, where it succeeds: the local path's bytes, as the
    /// operating system holds them, whether or not they are valid UTF-8.
    pub file_path: Option<Vec<u8>>,
}

/// The mathematical model of [`UrlParts`].
pub struct UrlPartsView {
    pub scheme: Seq<char>,
    pub host: Option<Seq<char>>,
    pub path: Seq<char>,
    pub query: Seq<(Seq<char>, Seq<char>)>,
    pub file_path: Option<Seq<u8>>,
}

pub open spec fn opt_str_view(o: Option<String>) -> Option<Seq<char>> {
    match o {
        Some(s) => Some(s@),
        None => None,
    }
}

impl View for UrlParts {
    type V = UrlPartsView;

    open spec fn view(&self) -> UrlPartsView {
        UrlPartsView {
            scheme: self.scheme@,
            host: opt_str_view(self.host),
            path: self.path@,
            query: self.query.deep_view(),
            file_path: match self.file_path {
                Some(b) => Some(b@),
                None => None,
            },
        }
    }
}

pub open spec fn opt_parts_view(o: Option<UrlParts>) -> Option<UrlPartsView> {
    match o {
        Some(p) => Some(p@),
        None => None,
    }
}

/// What `url::Url::parse` makes of a string, read back through `scheme`,
/// `host_str`, `path`, `query_pairs` and `to_file_path`.
pub uninterp spec fn parsed_url(raw: Seq<char>) -> Option<UrlPartsView>;

/// `url::Url::parse`, with the parsed URL converted into [`UrlParts`].
/// The contract names the result and says nothing more of it: the WHATWG URL
/// parser is not restated here.
#[verifier::external_body]
pub(crate) fn parse_url(raw: &str) -> (r: Option<UrlParts>)
    ensures
        opt_parts_view(r) == parsed_url(raw@),
{
    let u = url::Url::parse(raw).ok()?;
    Some(UrlParts {
        scheme: u.scheme().to_string(),
        host: u.host_str().map(|h| h.to_string()),
        path: u.path().to_string(),
        query: u.query_pairs().map(|(k, v)| (k.into_owned(), v.into_owned())).collect(),
        file_path: u.to_file_path().ok().map(|p| p.into_os_string().into_encoded_bytes()),
    })
}

/// The bytes that `form_urlencoded::byte_serialize` passes through unchanged.
pub open spec fn form_unchanged(b: u8) -> bool {
    ||| b == 0x2A
    ||| b == 0x2D
    ||| b == 0x2E
    ||| 0x30 <= b <= 0x39
    ||| 0x41 <= b <= 0x5A
    ||| b == 0x5F
    ||| 0x61 <= b <= 0x7A
}

/// An upper-case hexadecimal digit.
pub open spec fn hex_upper(d: int) -> char {
    if d < 10 {
        (48 + d) as char
    } else {
        (55 + d) as char
    }
}

/// The serialization of one byte in the `application/x-www-form-urlencoded` syntax.
pub open spec fn form_byte(b: u8) -> Seq<char> {
    if form_unchanged(b) {
        seq![b as char]
    } else if b == 0x20 {
        seq!['+']
    } else {
        seq!['%', hex_upper((b / 16) as int), hex_upper((b % 16) as int)]
    }
}

/// `form_urlencoded::byte_serialize` of a byte string.
pub open spec fn form_encode(bytes: Seq<u8>) -> Seq<char>
    decreases bytes.len(),
{
    if bytes.len() == 0 {
        Seq::empty()
    } else {
        form_encode(bytes.drop_last()) + form_byte(bytes.last())
    }
}

/// One `name=value` pair of a form-encoded query.
pub open spec fn form_pair(pair: (Seq<char>, Seq<char>)) -> Seq<char> {
    form_encode(encode_utf8(pair.0)) + seq!['='] + form_encode(encode_utf8(pair.1))
}

/// What `form_urlencoded::Serializer` builds from a list of pairs: each pair
/// serialized, joined by `&`.
pub open spec fn form_query(pairs: Seq<(Seq<char>, Seq<char>)>) -> Seq<char>
    decreases pairs.len(),
{
    if pairs.len() == 0 {
        Seq::empty()
    } else if pairs.len() == 1 {
        form_pair(pairs[0])
    } else {
        form_query(pairs.drop_last()) + seq!['&'] + form_pair(pairs.last())
    }
}

/// `url::form_urlencoded::Serializer`: a new serializer on an empty string, every
/// pair appended with `extend_pairs`, then `finish`. The crate's source appends
/// `&` between pairs, `=` between name and value, and serializes each name and
/// value with `byte_serialize` over its UTF-8 bytes.
#[verifier::external_body]
fn form_urlencode_pairs(pairs: &Vec<(String, String)>) -> (r: String)
    ensures
        r@ == form_query(pairs.deep_view()),
{
    url::form_urlencoded::Serializer::new(String::new()).extend_pairs(pairs.iter()).finish()
}

/// The ASCII digits of `s`, in order.
pub open spec fn ascii_digits(s: Seq<char>) -> Seq<char>
    decreases s.len(),
{
    if s.len() == 0 {
        Seq::empty()
    } else if '0' <= s.last() && s.last() <= '9' {
        ascii_digits(s.drop_last()).push(s.last())
    } else {
        ascii_digits(s.drop_last())
    }
}

/// The web client URL for `path` with the given query pairs.
pub open spec fn web_url_spec(path: Seq<char>, pairs: Seq<(Seq<char>, Seq<char>)>) -> Seq<char> {
    "https://web.whatsapp.com/"@ + path + "?"@ + form_query(pairs)
}

/// The URL that opens a conversation: a phone number is required, and only its
/// digits are kept; empty text is left out.
pub open spec fn send_url_spec(phone: Option<Seq<char>>, text: Option<Seq<char>>) -> Option<Seq<char>> {
    match phone {
        None => None,
        Some(p) => {
            let digits = ascii_digits(p);
            if digits.len() == 0 {
                None
            } else {
                match text {
                    Some(t) if t.len() > 0 => Some(
                        web_url_spec("send"@, seq![("phone"@, digits), ("text"@, t)]),
                    ),
                    _ => Some(web_url_spec("send"@, seq![("phone"@, digits)])),
                }
            }
        },
    }
}

/// The URL that accepts a group invite.
pub open spec fn invite_url_spec(code: Seq<char>) -> Seq<char> {
    web_url_spec("accept"@, seq![("code"@, code)])
}

/// The value of the first query pair named `name`.
pub open spec fn query_param(q: Seq<(Seq<char>, Seq<char>)>, name: Seq<char>) -> Option<Seq<char>>
    decreases q.len(),
{
    if q.len() == 0 {
        None
    } else if q[0].0 == name {
        Some(q[0].1)
    } else {
        query_param(q.drop_first(), name)
    }
}

/// `whatsapp://send?...` puts the action in the host, `whatsapp:send?...` in
/// the path.
pub open spec fn action_of(p: UrlPartsView) -> Seq<char> {
    match p.host {
        Some(h) if h.len() > 0 => h,
        _ => trim_start_by(p.path, char_pred('/')),
    }
}

/// A single path segment: non-empty and free of `/`.
pub open spec fn single_segment(s: Seq<char>) -> bool {
    s.len() > 0 && !has_char(s, '/')
}

/// The web client URL for a parsed link, if the link has a known shape.
pub open spec fn web_target_spec(p: UrlPartsView) -> Option<Seq<char>> {
    let phone = query_param(p.query, "phone"@);
    let text = query_param(p.query, "text"@);
    let action = action_of(p);
    if p.scheme == "whatsapp"@ {
        if action == "send"@ {
            send_url_spec(phone, text)
        } else if action == "chat"@ {
            match query_param(p.query, "code"@) {
                Some(c) => Some(invite_url_spec(c)),
                None => None,
            }
        } else {
            None
        }
    } else if p.scheme == "http"@ || p.scheme == "https"@ {
        match p.host {
            None => None,
            Some(h) => {
                let segment = trimmed_char(p.path, '/');
                if h == "wa.me"@ {
                    if single_segment(segment) {
                        send_url_spec(Some(segment), text)
                    } else {
                        None
                    }
                } else if h == "api.whatsapp.com"@ || h == "web.whatsapp.com"@ {
                    send_url_spec(phone, text)
                } else if h == "chat.whatsapp.com"@ {
                    if single_segment(segment) {
                        Some(invite_url_spec(segment))
                    } else {
                        None
                    }
                } else {
                    None
                }
            },
        }
    } else {
        None
    }
}

/// What [`to_web_url`] gives for a raw link.
pub open spec fn to_web_url_spec(raw: Seq<char>) -> Option<Seq<char>> {
    match parsed_url(trimmed(raw)) {
        Some(p) => web_target_spec(p),
        None => None,
    }
}

/// The web client URL for `path` with the given query pairs.
pub fn web_url(path: &str, pairs: &Vec<(String, String)>) -> (r: String)
    ensures
        r@ == web_url_spec(path@, pairs.deep_view()),
{
    let query = form_urlencode_pairs(pairs);
    let mut r = owned("https://web.whatsapp.com/");
    r.append(path);
    r.append("?");
    r.append(query.as_str());
    r
}

/// The digits of a phone number as written in a link.
fn digits_of(s: &str) -> (r: String)
    ensures
        r@ == ascii_digits(s@),
{
    let cs = chars_of(s);
    let mut out = String::new();
    let mut i: usize = 0;
    while i < cs.len()
        invariant
            cs@ == s@,
            i <= cs@.len(),
            out@ == ascii_digits(s@.take(i as int)),
        decreases cs@.len() - i,
    {
        let c = cs[i];
        proof {
            let t = s@.take(i as int + 1);
            assert(t.drop_last() =~= s@.take(i as int));
            assert(t.last() == c);
        }
        if '0' <= c && c <= '9' {
            push_char(&mut out, c);
        }
        i = i + 1;
    }
    assert(s@.take(cs@.len() as int) =~= s@);
    out
}

/// The URL that opens a conversation with `phone`, prefilled with `text`.
pub fn send_url(phone: Option<&str>, text: Option<&str>) -> (r: Option<String>)
    ensures
        opt_str_view(r) == send_url_spec(
            match phone { Some(p) => Some(p@), None => None },
            match text { Some(t) => Some(t@), None => None },
        ),
{
    let p = match phone {
        Some(p) => p,
        None => return None,
    };
    let digits = digits_of(p);
    if digits.as_str().is_empty() {
        return None;
    }
    let mut params: Vec<(String, String)> = Vec::new();
    params.push((owned("phone"), digits));
    let ghost d = ascii_digits(p@);
    match text {
        Some(t) if !t.is_empty() => {
            params.push((owned("text"), owned(t)));
            assert(params.deep_view() =~= seq![("phone"@, d), ("text"@, t@)]);
        },
        _ => {
            assert(params.deep_view() =~= seq![("phone"@, d)]);
        },
    }
    Some(web_url("send", &params))
}

/// The URL that accepts the group invite `code`.
pub fn invite_url(code: &str) -> (r: String)
    ensures
        r@ == invite_url_spec(code@),
{
    let mut params: Vec<(String, String)> = Vec::new();
    params.push((owned("code"), owned(code)));
    assert(params.deep_view() =~= seq![("code"@, code@)]);
    web_url("accept", &params)
}

/// The value of the first query pair named `name`.
pub fn find_param<'a>(query: &'a Vec<(String, String)>, name: &str) -> (r: Option<&'a str>)
    ensures
        match r { Some(v) => Some(v@), None => None::<Seq<char>> } == query_param(
            query.deep_view(),
            name@,
        ),
{
    let mut i: usize = 0;
    assert(query.deep_view().skip(0) =~= query.deep_view());
    while i < query.len()
        invariant
            i <= query@.len(),
            query_param(query.deep_view(), name@) == query_param(
                query.deep_view().skip(i as int),
                name@,
            ),
        decreases query@.len() - i,
    {
        let ghost rest = query.deep_view().skip(i as int);
        assert(rest[0] == query.deep_view()[i as int]);
        if str_eq(query[i].0.as_str(), name) {
            return Some(query[i].1.as_str());
        }
        assert(rest.drop_first() =~= query.deep_view().skip(i as int + 1));
        i = i + 1;
    }
    None
}

/// The web client URL for a parsed link, if the link has a known shape:
/// `whatsapp://send?phone=`, `wa.me/<number>`, `api.whatsapp.com/send`,
/// `web.whatsapp.com/send`, and group invites (`whatsapp://chat?code=`,
/// `chat.whatsapp.com/<code>`). Short links such as `wa.me/message/<id>`
/// resolve server-side and are rejected.
pub fn web_target(p: &UrlParts) -> (r: Option<String>)
    ensures
        opt_str_view(r) == web_target_spec(p@),
{
    let action: &str = match &p.host {
        Some(h) if !h.as_str().is_empty() => h.as_str(),
        _ => trim_start_char(p.path.as_str(), '/'),
    };
    let phone = find_param(&p.query, "phone");
    let text = find_param(&p.query, "text");
    let scheme = p.scheme.as_str();
    if str_eq(scheme, "whatsapp") {
        if str_eq(action, "send") {
            send_url(phone, text)
        } else if str_eq(action, "chat") {
            match find_param(&p.query, "code") {
                Some(c) => Some(invite_url(c)),
                None => None,
            }
        } else {
            None
        }
    } else if str_eq(scheme, "http") || str_eq(scheme, "https") {
        match &p.host {
            None => None,
            Some(h) => {
                let host = h.as_str();
                let segment = trim_char(p.path.as_str(), '/');
                let single = !segment.is_empty() && !str_has_char(segment, '/');
                if str_eq(host, "wa.me") {
                    if single {
                        send_url(Some(segment), text)
                    } else {
                        None
                    }
                } else if str_eq(host, "api.whatsapp.com") || str_eq(host, "web.whatsapp.com") {
                    send_url(phone, text)
                } else if str_eq(host, "chat.whatsapp.com") {
                    if single {
                        Some(invite_url(segment))
                    } else {
                        None
                    }
                } else {
                    None
                }
            },
        }
    } else {
        None
    }
}

/// Translate a click-to-chat link into the web.whatsapp.com URL that opens it.
///
/// Handles `whatsapp://send?phone=`, `wa.me/<number>`, `api.whatsapp.com/send`,
/// and group invites from `chat.whatsapp.com`. Short links (`wa.me/message/...`)
/// cannot be mapped without following them, so they are rejected.
pub fn to_web_url(raw: &str) -> (r: Option<String>)
    ensures
        opt_str_view(r) == to_web_url_spec(raw@),
{
    match parse_url(trim(raw)) {
        Some(p) => web_target(&p),
        None => None,
    }
}

/// Record the URL from the command line. Only the first call has an effect.
pub fn set_launch_url(cell: &mut OnceCell, url: Option<String>)
    ensures
        final(cell)@ == once_after_set(old(cell)@, opt_str_view(url)),
{
    cell.set(url);
}

/// The URL this process was launched with, if any.
pub fn launch_url(cell: &OnceCell) -> (r: Option<&str>)
    ensures
        match r { Some(s) => Some(s@), None => None::<Seq<char>> } == match cell@ {
            Some(Some(s)) => Some(s),
            _ => None,
        },
{
    cell.get()
}

/// Collect the parked link, if any.
pub fn take_pending(pending: &mut Slot) -> (r: Option<String>)
    ensures
        opt_str_view(r) == slot_taken(old(pending)@),
        final(pending)@ == slot_after_take(old(pending)@),
{
    pending.take()
}

/// The slot after a link is parked: its translation replaces what was there;
/// a link that cannot be translated leaves the slot alone.
pub open spec fn pending_after_park(pending: Option<Seq<char>>, raw: Seq<char>) -> Option<Seq<char>> {
    match to_web_url_spec(raw) {
        Some(t) => Some(t),
        None => pending,
    }
}

/// Park the link this process was launched with until the page collects it.
pub fn park(pending: &mut Slot, raw: &str)
    ensures
        final(pending)@ == pending_after_park(old(pending)@, raw@),
{
    if let Some(target) = to_web_url(raw) {
        pending.put(Some(target));
    }
}

/// Law: every URL that a link translates to opens the web client.
pub proof fn law_targets_open_web_client(raw: Seq<char>)
    ensures
        to_web_url_spec(raw) matches Some(t) ==> starts_with(t, "https://web.whatsapp.com/"@),
{
    if let Some(p) = parsed_url(trimmed(raw)) {
        if let Some(t) = web_target_spec(p) {
            lemma_web_url_prefix(t);
        }
    }
}

proof fn lemma_web_url_prefix(t: Seq<char>)
    requires
        exists|path: Seq<char>, pairs: Seq<(Seq<char>, Seq<char>)>| t == #[trigger] web_url_spec(path, pairs),
    ensures
        starts_with(t, "https://web.whatsapp.com/"@),
{
    let (path, pairs) = choose|path: Seq<char>, pairs: Seq<(Seq<char>, Seq<char>)>| t == #[trigger] web_url_spec(path, pairs);
    let pre = "https://web.whatsapp.com/"@;
    assert(t.take(pre.len() as int) =~= pre);
}

/// Whether every character of `s` is an ASCII digit.
pub open spec fn all_ascii_digits(s: Seq<char>) -> bool {
    forall|i: int| 0 <= i < s.len() ==> '0' <= #[trigger] s[i] <= '9'
}

/// The conversation URL for the phone digits `digits` and, when there is
/// one, the prefilled `text`.
pub open spec fn send_target(digits: Seq<char>, text: Option<Seq<char>>) -> Seq<char> {
    match text {
        Some(t) => web_url_spec("send"@, seq![("phone"@, digits), ("text"@, t)]),
        None => web_url_spec("send"@, seq![("phone"@, digits)]),
    }
}

/// The parts a conversation URL is made of: at least one digit and nothing
/// else in the phone number, and a prefilled text only when it is not empty.
pub open spec fn send_parts_ok(digits: Seq<char>, text: Option<Seq<char>>) -> bool {
    &&& digits.len() > 0
    &&& all_ascii_digits(digits)
    &&& (text matches Some(t) ==> t.len() > 0)
}

proof fn lemma_ascii_digits_are_digits(s: Seq<char>)
    ensures
        all_ascii_digits(ascii_digits(s)),
    decreases s.len(),
{
    if s.len() > 0 {
        lemma_ascii_digits_are_digits(s.drop_last());
    }
}

proof fn lemma_send_url_shape(phone: Option<Seq<char>>, text: Option<Seq<char>>)
    ensures
        send_url_spec(phone, text) matches Some(t) ==> exists|d: Seq<char>, x: Option<Seq<char>>|
            send_parts_ok(d, x) && t == #[trigger] send_target(d, x),
{
    if let Some(p) = phone {
        let d = ascii_digits(p);
        lemma_ascii_digits_are_digits(p);
        if d.len() > 0 {
            let x = match text {
                Some(t) if t.len() > 0 => Some(t),
                _ => None,
            };
            assert(send_parts_ok(d, x));
            assert(send_url_spec(phone, text) == Some(send_target(d, x)));
        }
    }
}

/// Law: a link translates either to the web client's group-invite URL for some
/// code, or to its conversation URL for a phone number made of at least one
/// ASCII digit and nothing else, with a prefilled text only when that text is
/// not empty.
pub proof fn law_targets_have_web_shape(raw: Seq<char>)
    ensures
        to_web_url_spec(raw) matches Some(t) ==> {
            ||| exists|code: Seq<char>| t == #[trigger] invite_url_spec(code)
            ||| exists|d: Seq<char>, x: Option<Seq<char>>| send_parts_ok(d, x) && t == #[trigger] send_target(d, x)
        },
{
    if let Some(p) = parsed_url(trimmed(raw)) {
        let phone = query_param(p.query, "phone"@);
        let text = query_param(p.query, "text"@);
        let segment = trimmed_char(p.path, '/');
        lemma_send_url_shape(phone, text);
        lemma_send_url_shape(Some(segment), text);
        if let Some(c) = query_param(p.query, "code"@) {
            assert(invite_url_spec(c) == invite_url_spec(c));
        }
        assert(invite_url_spec(segment) == invite_url_spec(segment));
    }
}

/// Law: every link shape that opens a conversation carries the prefilled text
/// along: a `whatsapp://send` link, a `wa.me/<number>` link and an
/// `api.whatsapp.com` or `web.whatsapp.com` link whose phone number has a digit
/// and whose text is not empty all translate to the conversation URL for the
/// phone's digits with that text.
pub proof fn law_text_is_carried(p: UrlPartsView, number: Seq<char>, text: Seq<char>)
    requires
        ascii_digits(number).len() > 0,
        text.len() > 0,
        query_param(p.query, "text"@) == Some(text),
    ensures
        (p.scheme == "whatsapp"@ && action_of(p) == "send"@ && query_param(p.query, "phone"@) == Some(number))
            ==> web_target_spec(p) == Some(web_url_spec("send"@, seq![("phone"@, ascii_digits(number)), ("text"@, text)])),
        ((p.scheme == "https"@ || p.scheme == "http"@)
            && (p.host == Some("api.whatsapp.com"@) || p.host == Some("web.whatsapp.com"@))
            && query_param(p.query, "phone"@) == Some(number))
            ==> web_target_spec(p) == Some(web_url_spec("send"@, seq![("phone"@, ascii_digits(number)), ("text"@, text)])),
        ((p.scheme == "https"@ || p.scheme == "http"@) && p.host == Some("wa.me"@)
            && trimmed_char(p.path, '/') == number && single_segment(number))
            ==> web_target_spec(p) == Some(web_url_spec("send"@, seq![("phone"@, ascii_digits(number)), ("text"@, text)])),
{
    reveal_strlit("whatsapp");
    reveal_strlit("https");
    reveal_strlit("http");
    reveal_strlit("wa.me");
    reveal_strlit("api.whatsapp.com");
    reveal_strlit("web.whatsapp.com");
    reveal_strlit("chat.whatsapp.com");
    assert("https"@.len() != "whatsapp"@.len());
    assert("http"@.len() != "whatsapp"@.len());
    assert("api.whatsapp.com"@.len() != "wa.me"@.len());
    assert("web.whatsapp.com"@.len() != "wa.me"@.len());
    let target = web_url_spec("send"@, seq![("phone"@, ascii_digits(number)), ("text"@, text)]);
    assert(send_url_spec(Some(number), Some(text)) == Some(target));
}

/// Law: without prefilled text (none, or empty), a conversation link
/// translates to the conversation URL for the phone's digits alone.
pub proof fn law_no_text_phone_only(p: UrlPartsView, number: Seq<char>)
    requires
        ascii_digits(number).len() > 0,
        query_param(p.query, "text"@) matches Some(t) ==> t.len() == 0,
    ensures
        (p.scheme == "whatsapp"@ && action_of(p) == "send"@ && query_param(p.query, "phone"@) == Some(number))
            ==> web_target_spec(p) == Some(web_url_spec("send"@, seq![("phone"@, ascii_digits(number))])),
        ((p.scheme == "https"@ || p.scheme == "http"@)
            && (p.host == Some("api.whatsapp.com"@) || p.host == Some("web.whatsapp.com"@))
            && query_param(p.query, "phone"@) == Some(number))
            ==> web_target_spec(p) == Some(web_url_spec("send"@, seq![("phone"@, ascii_digits(number))])),
        ((p.scheme == "https"@ || p.scheme == "http"@) && p.host == Some("wa.me"@)
            && trimmed_char(p.path, '/') == number && single_segment(number))
            ==> web_target_spec(p) == Some(web_url_spec("send"@, seq![("phone"@, ascii_digits(number))])),
{
    reveal_strlit("whatsapp");
    reveal_strlit("https");
    reveal_strlit("http");
    reveal_strlit("wa.me");
    reveal_strlit("api.whatsapp.com");
    reveal_strlit("web.whatsapp.com");
    assert("https"@.len() != "whatsapp"@.len());
    assert("http"@.len() != "whatsapp"@.len());
    assert("api.whatsapp.com"@.len() != "wa.me"@.len());
    assert("web.whatsapp.com"@.len() != "wa.me"@.len());
    let target = web_url_spec("send"@, seq![("phone"@, ascii_digits(number))]);
    let text = query_param(p.query, "text"@);
    assert(send_url_spec(Some(number), text) == Some(target));
}

/// Law: a group invite, `chat.whatsapp.com/<code>` or `whatsapp://chat?code=`,
/// translates to the web client's accept URL for that code.
pub proof fn law_invites_accepted(p: UrlPartsView, code: Seq<char>)
    ensures
        (p.scheme == "whatsapp"@ && action_of(p) == "chat"@ && query_param(p.query, "code"@) == Some(code))
            ==> web_target_spec(p) == Some(web_url_spec("accept"@, seq![("code"@, code)])),
        ((p.scheme == "https"@ || p.scheme == "http"@) && p.host == Some("chat.whatsapp.com"@)
            && trimmed_char(p.path, '/') == code && single_segment(code))
            ==> web_target_spec(p) == Some(web_url_spec("accept"@, seq![("code"@, code)])),
{
    reveal_strlit("whatsapp");
    reveal_strlit("https");
    reveal_strlit("http");
    reveal_strlit("send");
    reveal_strlit("chat");
    reveal_strlit("wa.me");
    reveal_strlit("api.whatsapp.com");
    reveal_strlit("web.whatsapp.com");
    reveal_strlit("chat.whatsapp.com");
    assert("https"@.len() != "whatsapp"@.len());
    assert("http"@.len() != "whatsapp"@.len());
    assert("send"@[0] != "chat"@[0]);
    assert("chat.whatsapp.com"@.len() != "wa.me"@.len());
    assert("chat.whatsapp.com"@.len() != "api.whatsapp.com"@.len());
    assert("chat.whatsapp.com"@.len() != "web.whatsapp.com"@.len());
}

/// Law: only the WhatsApp hosts and the `whatsapp:` scheme translate; a link to
/// any other host, or in any other scheme, gives nothing.
pub proof fn law_other_links_rejected(p: UrlPartsView)
    ensures
        (p.scheme != "whatsapp"@ && p.scheme != "https"@ && p.scheme != "http"@) ==> web_target_spec(p) is None,
        (p.host matches Some(h) && h != "wa.me"@ && h != "api.whatsapp.com"@ && h != "web.whatsapp.com"@
            && h != "chat.whatsapp.com"@ && p.scheme != "whatsapp"@) ==> web_target_spec(p) is None,
{
}

/// Law: a conversation URL is only built for a phone number with at least one digit.
pub proof fn law_send_needs_digits(phone: Option<Seq<char>>, text: Option<Seq<char>>)
    ensures
        send_url_spec(phone, text) is Some ==> phone is Some && ascii_digits(phone->0).len() > 0,
{
}

/// Law: parking a link that cannot be translated keeps the previously parked one.
pub proof fn law_park_keeps_on_failure(pending: Option<Seq<char>>, raw: Seq<char>)
    ensures
        to_web_url_spec(raw) is None ==> pending_after_park(pending, raw) == pending,
        to_web_url_spec(raw) is Some ==> pending_after_park(pending, raw) == to_web_url_spec(raw),
{
}

} // verus!
