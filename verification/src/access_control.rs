//! Access control for listeners: the policy trait, the answer that libsrt gets
//! for an incoming handshake, and the structured form of Stream IDs.

use vstd::prelude::*;
use vstd::string::*;

use crate::addr::{sockaddr_to_socket_addr, unspecified, RawSockAddr, SocketAddr};
use crate::error::RejectReason;
use crate::text;

pub mod stream_mode;
pub mod stream_type;

verus! {

/// What is known of an incoming connection when a policy is asked about it.
#[derive(Debug, Clone)]
pub struct HandshakeInfo {
    /// Remote peer address.
    pub peer_addr: SocketAddr,
    /// Stream ID sent by the caller (empty if none).
    pub stream_id: String,
    /// Whether the caller is using encryption.
    pub is_encrypted: bool,
    /// The caller's SRT socket ID.
    pub peer_socket_id: u32,
    /// The caller's SRT version (from the handshake).
    pub peer_version: i32,
}

/// A policy that decides which callers a listener accepts.
pub trait AccessControl: Send + Sync + 'static {
    /// Whether the policy can be asked about this caller.
    open spec fn can_judge(&self, info: &HandshakeInfo) -> bool {
        true
    }

    /// Whether the policy may give this verdict on this caller.
    open spec fn may_rule(
        &self,
        info: &HandshakeInfo,
        verdict: Result<(), RejectReason>,
    ) -> bool {
        true
    }

    /// Asked when a new connection completes the handshake: `Ok(())` accepts the
    /// caller, an error turns it away.
    fn on_accept(&self, info: &HandshakeInfo) -> (verdict: Result<(), RejectReason>)
        requires
            self.can_judge(info),
        ensures
            self.may_rule(info, verdict),
    ;
}

/// The policy that accepts every caller.
pub struct AcceptAll;

impl AccessControl for AcceptAll {
    open spec fn can_judge(&self, info: &HandshakeInfo) -> bool {
        true
    }

    open spec fn may_rule(&self, info: &HandshakeInfo, verdict: Result<(), RejectReason>) -> bool {
        verdict is Ok
    }

    fn on_accept(&self, info: &HandshakeInfo) -> (verdict: Result<(), RejectReason>) {
        Ok(())
    }
}

/// A policy given by a closure.
pub struct AccessControlFn<F>(pub F);

impl<F> AccessControl for AccessControlFn<F> where
    F: Fn(&HandshakeInfo) -> Result<(), RejectReason> + Send + Sync + 'static,
 {
    open spec fn can_judge(&self, info: &HandshakeInfo) -> bool {
        call_requires(self.0, (info,))
    }

    open spec fn may_rule(&self, info: &HandshakeInfo, verdict: Result<(), RejectReason>) -> bool {
        call_ensures(self.0, (info,), verdict)
    }

    fn on_accept(&self, info: &HandshakeInfo) -> (verdict: Result<(), RejectReason>) {
        (self.0)(info)
    }
}

/// How asking a policy about a caller ended.
#[derive(Debug, Clone, Copy, PartialEq, Eq)]
pub enum HookOutcome {
    /// The policy ruled.
    Ruled(Result<(), RejectReason>),
    /// The policy panicked.
    Panicked,
}

/// What libsrt is told to let a caller in.
pub const HOOK_ACCEPT: i32 = 0;

/// What libsrt is told to turn a caller away.
pub const HOOK_REJECT: i32 = -1;

/// Whether an outcome lets the caller in: only a verdict that accepts it does.
pub open spec fn lets_in(outcome: HookOutcome) -> bool {
    outcome matches HookOutcome::Ruled(verdict) && verdict is Ok
}

/// Whether `info` is what a policy is shown of a caller with the given address,
/// Stream ID bytes and version: `0.0.0.0:0` where the address is not known, and
/// an empty Stream ID where there is none.
pub open spec fn describes(
    info: HandshakeInfo,
    hs_version: i32,
    peer: Option<RawSockAddr>,
    stream_id: Option<Seq<u8>>,
) -> bool {
    let known = match peer {
        Some(raw) => crate::addr::address_of(raw),
        None => None,
    };
    &&& match known {
        Some(addr) => info.peer_addr == addr,
        None => crate::addr::is_unspecified(info.peer_addr),
    }
    &&& info.stream_id@ == match stream_id {
        Some(bytes) => text::lossy_text(bytes),
        None => Seq::empty(),
    }
    &&& stream_id matches Some(bytes) ==> vstd::utf8::valid_utf8(bytes) ==> info.stream_id@
        == vstd::utf8::decode_utf8(bytes)
    &&& !info.is_encrypted
    &&& info.peer_socket_id == 0
    &&& info.peer_version == hs_version
}

/// The bytes of an optional slice.
pub open spec fn bytes_of(b: Option<&[u8]>) -> Option<Seq<u8>> {
    match b {
        Some(s) => Some(s@),
        None => None,
    }
}

/// The number that libsrt gets back for an outcome.
pub fn hook_result(outcome: HookOutcome) -> (code: i32)
    ensures
        code == (if lets_in(outcome) {
            HOOK_ACCEPT
        } else {
            HOOK_REJECT
        }),
{
    match outcome {
        HookOutcome::Ruled(Ok(_)) => HOOK_ACCEPT,
        HookOutcome::Ruled(Err(_)) => HOOK_REJECT,
        HookOutcome::Panicked => HOOK_REJECT,
    }
}

/// What a policy is shown of a caller. libsrt tells neither whether the caller
/// encrypts nor its socket ID at this point.
pub fn handshake_info(
    hs_version: i32,
    peer: Option<RawSockAddr>,
    stream_id: Option<&[u8]>,
) -> (info: HandshakeInfo)
    ensures
        describes(info, hs_version, peer, bytes_of(stream_id)),
{
    let known = match peer {
        Some(raw) => sockaddr_to_socket_addr(&raw),
        None => None,
    };
    let peer_addr = match known {
        Some(addr) => addr,
        None => unspecified(),
    };
    let id = match stream_id {
        Some(bytes) => text::from_utf8_lossy(bytes),
        None => String::new(),
    };
    HandshakeInfo {
        peer_addr,
        stream_id: id,
        is_encrypted: false,
        peer_socket_id: 0,
        peer_version: hs_version,
    }
}

/// Answers libsrt's accept hook: a listener without a policy lets every caller
/// in, and one with a policy lets in those that the policy accepts.
pub fn listen_callback<A: AccessControl>(
    policy: Option<&A>,
    hs_version: i32,
    peer: Option<RawSockAddr>,
    stream_id: Option<&[u8]>,
) -> (code: i32)
    requires
        forall|info: HandshakeInfo|
            policy is Some && describes(info, hs_version, peer, bytes_of(stream_id))
                ==> (#[trigger] policy->Some_0.can_judge(&info)),
    ensures
        policy is None ==> code == HOOK_ACCEPT,
        policy matches Some(ac) ==> exists|info: HandshakeInfo, verdict: Result<(), RejectReason>|
            describes(info, hs_version, peer, bytes_of(stream_id)) && #[trigger] ac.may_rule(
                &info,
                verdict,
            ) && code == (if verdict is Ok {
                HOOK_ACCEPT
            } else {
                HOOK_REJECT
            }),
{
    match policy {
        None => HOOK_ACCEPT,
        Some(ac) => {
            let info = handshake_info(hs_version, peer, stream_id);
            let verdict = ac.on_accept(&info);
            hook_result(HookOutcome::Ruled(verdict))
        },
    }
}

/// Maximum Stream ID length in bytes.
pub const SRT_MAX_STREAM_ID_LEN: usize = 512;

/// A Stream ID taken apart: the fields of the structured form
/// `#!::key=value,...`, and the text it was read from.
#[derive(Debug, Clone, PartialEq, Eq)]
pub struct StreamIdInfo {
    pub resource: Option<String>,
    pub mode: Option<String>,
    pub session_id: Option<String>,
    pub content_type: Option<String>,
    pub user_name: Option<String>,
    pub host_name: Option<String>,
    pub extra: Vec<(String, String)>,
    pub raw: String,
}

/// The fields of a Stream ID, as text.
#[verifier::ext_equal]
pub struct StreamIdFields {
    pub resource: Option<Seq<char>>,
    pub mode: Option<Seq<char>>,
    pub session_id: Option<Seq<char>>,
    pub content_type: Option<Seq<char>>,
    pub user_name: Option<Seq<char>>,
    pub host_name: Option<Seq<char>>,
    pub extra: Seq<(Seq<char>, Seq<char>)>,
    pub raw: Seq<char>,
}

/// The text of an optional string.
pub open spec fn text_of(s: Option<String>) -> Option<Seq<char>> {
    match s {
        Some(t) => Some(t@),
        None => None,
    }
}

/// The text of a list of string pairs.
pub open spec fn texts_of(pairs: Seq<(String, String)>) -> Seq<(Seq<char>, Seq<char>)> {
    Seq::new(pairs.len(), |i: int| (pairs[i].0@, pairs[i].1@))
}

impl View for StreamIdInfo {
    type V = StreamIdFields;

    open spec fn view(&self) -> StreamIdFields {
        StreamIdFields {
            resource: text_of(self.resource),
            mode: text_of(self.mode),
            session_id: text_of(self.session_id),
            content_type: text_of(self.content_type),
            user_name: text_of(self.user_name),
            host_name: text_of(self.host_name),
            extra: texts_of(self.extra@),
            raw: self.raw@,
        }
    }
}

/// The fields of a Stream ID that says nothing.
pub open spec fn no_fields(raw: Seq<char>) -> StreamIdFields {
    StreamIdFields {
        resource: None,
        mode: None,
        session_id: None,
        content_type: None,
        user_name: None,
        host_name: None,
        extra: Seq::empty(),
        raw,
    }
}

/// The fields with one of them set. A key that has no field of its own goes to
/// the end of the extra ones.
pub open spec fn with_field(fields: StreamIdFields, key: Seq<char>, value: Seq<char>) -> StreamIdFields {
    if key == "r"@ {
        StreamIdFields { resource: Some(value), ..fields }
    } else if key == "m"@ {
        StreamIdFields { mode: Some(value), ..fields }
    } else if key == "s"@ {
        StreamIdFields { session_id: Some(value), ..fields }
    } else if key == "t"@ {
        StreamIdFields { content_type: Some(value), ..fields }
    } else if key == "u"@ {
        StreamIdFields { user_name: Some(value), ..fields }
    } else if key == "h"@ {
        StreamIdFields { host_name: Some(value), ..fields }
    } else {
        StreamIdFields { extra: fields.extra.push((key, value)), ..fields }
    }
}

/// The fields after one entry of the list: `key=value` sets a field, what holds
/// no `=` changes nothing. White space around the entry does not count.
pub open spec fn with_pair(fields: StreamIdFields, entry: Seq<char>) -> StreamIdFields {
    let pair = text::trimmed(entry);
    let eq = text::first_index(pair, '=');
    if eq >= pair.len() {
        fields
    } else {
        with_field(fields, pair.take(eq), pair.skip(eq + 1))
    }
}

/// The fields after a list of entries, each in turn.
pub open spec fn with_pairs(fields: StreamIdFields, entries: Seq<Seq<char>>) -> StreamIdFields
    decreases entries.len(),
{
    if entries.len() == 0 {
        fields
    } else {
        with_pairs(with_pair(fields, entries[0]), entries.drop_first())
    }
}

/// Whether a Stream ID has the structured form.
pub open spec fn is_structured(s: Seq<char>) -> bool {
    "#!::"@.is_prefix_of(s)
}

/// The fields that a Stream ID stands for: the listed ones where it has the
/// structured form, else the whole text as the resource.
pub open spec fn parsed_fields(s: Seq<char>) -> StreamIdFields {
    if s.len() == 0 {
        no_fields(s)
    } else if is_structured(s) {
        with_pairs(no_fields(s), text::pieces(s.skip(4), ','))
    } else {
        StreamIdFields { resource: Some(s), ..no_fields(s) }
    }
}

/// The list entry of a field: nothing where the field is not set.
pub open spec fn entry_of(key: Seq<char>, value: Option<Seq<char>>) -> Seq<Seq<char>> {
    match value {
        Some(v) => seq![key.push('=') + v],
        None => Seq::empty(),
    }
}

/// The list entries of the extra fields.
pub open spec fn extra_entries(extra: Seq<(Seq<char>, Seq<char>)>) -> Seq<Seq<char>> {
    Seq::new(extra.len(), |i: int| extra[i].0.push('=') + extra[i].1)
}

/// The list entries of all fields.
pub open spec fn entries_of(fields: StreamIdFields) -> Seq<Seq<char>> {
    entry_of("r"@, fields.resource) + entry_of("m"@, fields.mode) + entry_of(
        "s"@,
        fields.session_id,
    ) + entry_of("t"@, fields.content_type) + entry_of("u"@, fields.user_name) + entry_of(
        "h"@,
        fields.host_name,
    ) + extra_entries(fields.extra)
}

/// The structured form of a list of entries; no text at all for no entries.
pub open spec fn listed(entries: Seq<Seq<char>>) -> Seq<char> {
    if entries.len() == 0 {
        Seq::empty()
    } else {
        "#!::"@ + text::joined(entries, ',')
    }
}

/// Adds an entry to the structured form of the entries so far.
fn add_entry(out: &mut String, key: &str, value: &str, Ghost(entries): Ghost<Seq<Seq<char>>>)
    requires
        old(out)@ == listed(entries),
    ensures
        final(out)@ == listed(entries.push(key@.push('=') + value@)),
{
    let ghost before = out@;
    let ghost entry = key@.push('=') + value@;
    proof {
        reveal_strlit("#!::");
        reveal_strlit(",");
        reveal_strlit("=");
    }
    if out.as_str().is_empty() {
        assert(entries.len() == 0);
        out.append("#!::");
        assert(entries.push(entry) =~= seq![entry]);
    } else {
        out.append(",");
        proof {
            text::lemma_joined_push(entries, entry, ',');
        }
    }
    out.append(key);
    out.append("=");
    out.append(value);
    assert(out@ =~= listed(entries.push(entry)));
}

/// Adds the entry of a field to the structured form of the entries so far.
fn add_field(
    out: &mut String,
    key: &str,
    value: &Option<String>,
    Ghost(entries): Ghost<Seq<Seq<char>>>,
)
    requires
        old(out)@ == listed(entries),
    ensures
        final(out)@ == listed(entries + entry_of(key@, text_of(*value))),
{
    match value {
        Some(v) => {
            add_entry(out, key, v.as_str(), Ghost(entries));
            assert(entries + entry_of(key@, text_of(*value)) =~= entries.push(
                key@.push('=') + v@,
            ));
        },
        None => {
            assert(entries + entry_of(key@, text_of(*value)) =~= entries);
        },
    }
}

impl Default for StreamIdInfo {
    fn default() -> (info: StreamIdInfo)
        ensures
            info@ == no_fields(Seq::empty()),
    {
        let info = StreamIdInfo {
            resource: None,
            mode: None,
            session_id: None,
            content_type: None,
            user_name: None,
            host_name: None,
            extra: Vec::new(),
            raw: String::new(),
        };
        assert(info@.extra =~= Seq::empty());
        info
    }
}

impl StreamIdInfo {
    /// Reads a Stream ID.
    pub fn parse(stream_id: &str) -> (info: StreamIdInfo)
        ensures
            info@ == parsed_fields(stream_id@),
    {
        let mut info = StreamIdInfo::default();
        info.raw = stream_id.to_owned();
        assert(info@ =~= no_fields(stream_id@));
        if stream_id.is_empty() {
            return info;
        }
        let all = text::chars_of(stream_id);
        proof {
            reveal_strlit("#!::");
            if is_structured(stream_id@) {
                let head = stream_id@.subrange(0, 4);
                assert("#!::"@ =~= head);
                assert(head[0] == '#' && head[1] == '!' && head[2] == ':' && head[3] == ':');
            }
        }
        if all.len() < 4 || all[0] != '#' || all[1] != '!' || all[2] != ':' || all[3] != ':' {
            assert(!is_structured(stream_id@));
            info.resource = Some(stream_id.to_owned());
            return info;
        }
        assert("#!::"@ =~= stream_id@.subrange(0, 4));
        let params = vstd::slice::slice_subrange(all.as_slice(), 4, all.len());
        assert(params@ =~= stream_id@.skip(4));
        let mut from: usize = 0;
        assert(params@.skip(0) =~= params@);
        loop
            invariant
                from <= params@.len(),
                parsed_fields(stream_id@) == with_pairs(
                    info@,
                    text::pieces(params@.skip(from as int), ','),
                ),
            decreases params@.len() - from,
        {
            let rest = vstd::slice::slice_subrange(params, from, params.len());
            assert(rest@ =~= params@.skip(from as int));
            let end: usize = text::find(rest, ',');
            let entry = vstd::slice::slice_subrange(rest, 0, end);
            let ghost all_pieces = text::pieces(rest@, ',');
            assert(entry@ =~= all_pieces[0]) by {
                assert(rest@.take(rest@.len() as int) =~= rest@);
            }
            info.set_pair(entry);
            if end == rest.len() {
                assert(all_pieces.drop_first().len() == 0);
                assert(with_pairs(info@, all_pieces.drop_first()) == info@);
                return info;
            }
            assert(all_pieces.drop_first() =~= text::pieces(rest@.skip(end + 1), ','));
            assert(rest@.skip(end + 1) =~= params@.skip(from + end + 1));
            from = from + end + 1;
        }
    }

    /// Takes over one entry of the list.
    fn set_pair(&mut self, entry: &[char])
        ensures
            final(self)@ == with_pair(old(self)@, entry@),
    {
        let pair = text::trim(entry);
        let eq: usize = text::find(pair, '=');
        if eq == pair.len() {
            return;
        }
        let key = vstd::slice::slice_subrange(pair, 0, eq);
        let value = vstd::slice::slice_subrange(pair, eq + 1, pair.len());
        assert(key@ =~= pair@.take(eq as int));
        assert(value@ =~= pair@.skip(eq + 1));
        let v = text::string_of(value);
        if text::same_text(key, "r") {
            self.resource = Some(v);
        } else if text::same_text(key, "m") {
            self.mode = Some(v);
        } else if text::same_text(key, "s") {
            self.session_id = Some(v);
        } else if text::same_text(key, "t") {
            self.content_type = Some(v);
        } else if text::same_text(key, "u") {
            self.user_name = Some(v);
        } else if text::same_text(key, "h") {
            self.host_name = Some(v);
        } else {
            let k = text::string_of(key);
            self.extra.push((k, v));
            assert(texts_of(self.extra@) =~= texts_of(old(self).extra@).push((key@, value@)));
        }
        assert(self@ =~= with_pair(old(self)@, entry@));
    }

    /// Writes the fields in the structured form; no text where none is set.
    pub fn to_stream_id(&self) -> (s: String)
        ensures
            s@ == listed(entries_of(self@)),
    {
        let mut out = String::new();
        let ghost e0: Seq<Seq<char>> = Seq::empty();
        add_field(&mut out, "r", &self.resource, Ghost(e0));
        let ghost e1 = e0 + entry_of("r"@, self@.resource);
        assert(e1 =~= entry_of("r"@, self@.resource));
        add_field(&mut out, "m", &self.mode, Ghost(e1));
        let ghost e2 = e1 + entry_of("m"@, self@.mode);
        add_field(&mut out, "s", &self.session_id, Ghost(e2));
        let ghost e3 = e2 + entry_of("s"@, self@.session_id);
        add_field(&mut out, "t", &self.content_type, Ghost(e3));
        let ghost e4 = e3 + entry_of("t"@, self@.content_type);
        add_field(&mut out, "u", &self.user_name, Ghost(e4));
        let ghost e5 = e4 + entry_of("u"@, self@.user_name);
        add_field(&mut out, "h", &self.host_name, Ghost(e5));
        let ghost e6 = e5 + entry_of("h"@, self@.host_name);
        let ghost extra = extra_entries(self@.extra);
        assert(e6 + extra.take(0) =~= e6);
        for i in 0..self.extra.len()
            invariant
                extra == extra_entries(texts_of(self.extra@)),
                out@ == listed(e6 + extra.take(i as int)),
        {
            let (k, v) = &self.extra[i];
            add_entry(&mut out, k.as_str(), v.as_str(), Ghost(e6 + extra.take(i as int)));
            assert((e6 + extra.take(i as int)).push(k@.push('=') + v@) =~= e6 + extra.take(i + 1));
        }
        assert(extra.take(extra.len() as int) =~= extra);
        out
    }
}

/// Whether a value can stand in a list of entries and be read back.
pub open spec fn is_clean_value(value: Seq<char>) -> bool {
    &&& !value.contains(',')
    &&& value.len() > 0 ==> !text::is_space(value.last())
}

/// Whether an optional value, where it is set, can stand in a list of entries.
pub open spec fn is_clean_field(value: Option<Seq<char>>) -> bool {
    value matches Some(v) ==> is_clean_value(v)
}

/// Whether a key has a field of its own.
pub open spec fn is_known_key(key: Seq<char>) -> bool {
    key == "r"@ || key == "m"@ || key == "s"@ || key == "t"@ || key == "u"@ || key == "h"@
}

/// Whether an extra field can stand in a list of entries and be read back.
pub open spec fn is_clean_extra(pair: (Seq<char>, Seq<char>)) -> bool {
    &&& !pair.0.contains(',')
    &&& !pair.0.contains('=')
    &&& pair.0.len() > 0 ==> !text::is_space(pair.0[0])
    &&& !is_known_key(pair.0)
    &&& is_clean_value(pair.1)
}

/// Whether the fields can all stand in the structured form: no comma in a key or
/// a value, no white space that trimming would take away, and no extra key that
/// has a field of its own or holds a `=`.
pub open spec fn is_clean(fields: StreamIdFields) -> bool {
    &&& is_clean_field(fields.resource)
    &&& is_clean_field(fields.mode)
    &&& is_clean_field(fields.session_id)
    &&& is_clean_field(fields.content_type)
    &&& is_clean_field(fields.user_name)
    &&& is_clean_field(fields.host_name)
    &&& forall|i: int| 0 <= i < fields.extra.len() ==> is_clean_extra(#[trigger] fields.extra[i])
}

/// Reading back what the fields were written as gives the fields, with the
/// written text as the raw one, for all fields that the structured form can hold.
pub proof fn law_fields_read_back(fields: StreamIdFields)
    requires
        is_clean(fields),
    ensures
        parsed_fields(listed(entries_of(fields))) == (StreamIdFields {
            raw: listed(entries_of(fields)),
            ..fields
        }),
{
    let entries = entries_of(fields);
    let written = listed(entries);
    let start = no_fields(written);
    let goal = StreamIdFields { raw: written, ..fields };
    lemma_entries_rebuild(start, fields);
    assert(with_pairs(start, entries) =~= goal);
    if entries.len() > 0 {
        reveal_strlit("#!::");
        assert("#!::"@ =~= written.subrange(0, 4));
        assert(written.skip(4) =~= text::joined(entries, ','));
        assert forall|i: int| 0 <= i < entries.len() implies !(#[trigger] entries[i]).contains(
            ',',
        ) by {
            lemma_entries_hold_no_comma(fields, i);
        }
        text::lemma_pieces_of_joined(entries, ',');
    }
}

/// What is read from a structured Stream ID can be written in the structured
/// form again.
pub proof fn law_structured_fields_are_clean(s: Seq<char>)
    requires
        s.len() == 0 || is_structured(s),
    ensures
        is_clean(parsed_fields(s)),
{
    if s.len() > 0 {
        text::lemma_pieces_hold_no_separator(s.skip(4), ',');
        lemma_pairs_stay_clean(no_fields(s), text::pieces(s.skip(4), ','));
    }
}

/// Writing out what was read from a structured Stream ID, and reading that
/// again, changes no field.
pub proof fn law_structured_stream_id_is_stable(s: Seq<char>)
    requires
        s.len() == 0 || is_structured(s),
    ensures
        ({
            let fields = parsed_fields(s);
            let again = listed(entries_of(fields));
            parsed_fields(again) == (StreamIdFields { raw: again, ..fields })
        }),
{
    law_structured_fields_are_clean(s);
    law_fields_read_back(parsed_fields(s));
}

proof fn lemma_keys()
    ensures
        "r"@ =~= seq!['r'],
        "m"@ =~= seq!['m'],
        "s"@ =~= seq!['s'],
        "t"@ =~= seq!['t'],
        "u"@ =~= seq!['u'],
        "h"@ =~= seq!['h'],
{
    reveal_strlit("r");
    reveal_strlit("m");
    reveal_strlit("s");
    reveal_strlit("t");
    reveal_strlit("u");
    reveal_strlit("h");
}

/// An entry with nothing to trim sets the field it names.
proof fn lemma_pair(fields: StreamIdFields, key: Seq<char>, value: Seq<char>)
    requires
        !key.contains('='),
        key.len() > 0 ==> !text::is_space(key[0]),
        value.len() > 0 ==> !text::is_space(value.last()),
    ensures
        with_pair(fields, key.push('=') + value) == with_field(fields, key, value),
{
    let pair = key.push('=') + value;
    assert(pair[0] == (if key.len() > 0 {
        key[0]
    } else {
        '='
    }));
    text::lemma_trimmed_is_itself(pair);
    assert forall|i: int| 0 <= i < key.len() implies #[trigger] pair[i] != '=' by {
        assert(pair[i] == key[i]);
        assert(key.contains(key[i]));
    }
    text::lemma_first_index_is(pair, '=', key.len() as int);
    assert(pair.take(key.len() as int) =~= key);
    assert(pair.skip(key.len() as int + 1) =~= value);
}

/// Entries in a row are read one part after the other.
pub proof fn lemma_pairs_in_turn(fields: StreamIdFields, a: Seq<Seq<char>>, b: Seq<Seq<char>>)
    ensures
        with_pairs(fields, a + b) == with_pairs(with_pairs(fields, a), b),
    decreases a.len(),
{
    if a.len() == 0 {
        assert(a + b =~= b);
    } else {
        assert((a + b).drop_first() =~= a.drop_first() + b);
        lemma_pairs_in_turn(with_pair(fields, a[0]), a.drop_first(), b);
    }
}

/// Reading the entry of one field sets it, where it is set at all.
proof fn lemma_entry_sets(fields: StreamIdFields, key: Seq<char>, value: Option<Seq<char>>)
    requires
        is_clean_field(value),
        is_known_key(key),
    ensures
        with_pairs(fields, entry_of(key, value)) == (match value {
            Some(v) => with_field(fields, key, v),
            None => fields,
        }),
{
    lemma_keys();
    match value {
        Some(v) => {
            lemma_pair(fields, key, v);
            let entries = entry_of(key, value);
            assert(entries.drop_first().len() == 0);
            assert(with_pairs(with_field(fields, key, v), entries.drop_first()) == with_field(
                fields,
                key,
                v,
            ));
        },
        None => {},
    }
}

proof fn lemma_extra_sets(fields: StreamIdFields, extra: Seq<(Seq<char>, Seq<char>)>)
    requires
        forall|i: int| 0 <= i < extra.len() ==> is_clean_extra(#[trigger] extra[i]),
    ensures
        with_pairs(fields, extra_entries(extra)) == (StreamIdFields {
            extra: fields.extra + extra,
            ..fields
        }),
    decreases extra.len(),
{
    let entries = extra_entries(extra);
    if extra.len() == 0 {
        assert(fields.extra + extra =~= fields.extra);
    } else {
        let (k, v) = extra[0];
        lemma_pair(fields, k, v);
        let next = with_field(fields, k, v);
        let rest = extra.drop_first();
        assert(entries.drop_first() =~= extra_entries(rest));
        assert forall|i: int| 0 <= i < rest.len() implies is_clean_extra(#[trigger] rest[i]) by {
            assert(rest[i] == extra[i + 1]);
        }
        lemma_extra_sets(next, rest);
        assert(next.extra + rest =~= fields.extra + extra);
    }
}

proof fn lemma_entries_rebuild(start: StreamIdFields, fields: StreamIdFields)
    requires
        is_clean(fields),
        start == no_fields(start.raw),
    ensures
        with_pairs(start, entries_of(fields)) == (StreamIdFields { raw: start.raw, ..fields }),
{
    lemma_keys();
    let p1 = entry_of("r"@, fields.resource);
    let p2 = entry_of("m"@, fields.mode);
    let p3 = entry_of("s"@, fields.session_id);
    let p4 = entry_of("t"@, fields.content_type);
    let p5 = entry_of("u"@, fields.user_name);
    let p6 = entry_of("h"@, fields.host_name);
    let p7 = extra_entries(fields.extra);
    let f1 = StreamIdFields { resource: fields.resource, ..start };
    let f2 = StreamIdFields { mode: fields.mode, ..f1 };
    let f3 = StreamIdFields { session_id: fields.session_id, ..f2 };
    let f4 = StreamIdFields { content_type: fields.content_type, ..f3 };
    let f5 = StreamIdFields { user_name: fields.user_name, ..f4 };
    let f6 = StreamIdFields { host_name: fields.host_name, ..f5 };
    assert("r"@[0] == 'r' && "m"@[0] == 'm' && "s"@[0] == 's' && "t"@[0] == 't' && "u"@[0] == 'u'
        && "h"@[0] == 'h');
    lemma_entry_sets(start, "r"@, fields.resource);
    lemma_entry_sets(f1, "m"@, fields.mode);
    lemma_entry_sets(f2, "s"@, fields.session_id);
    lemma_entry_sets(f3, "t"@, fields.content_type);
    lemma_entry_sets(f4, "u"@, fields.user_name);
    lemma_entry_sets(f5, "h"@, fields.host_name);
    lemma_extra_sets(f6, fields.extra);
    lemma_pairs_in_turn(start, p1, p2);
    lemma_pairs_in_turn(start, p1 + p2, p3);
    lemma_pairs_in_turn(start, p1 + p2 + p3, p4);
    lemma_pairs_in_turn(start, p1 + p2 + p3 + p4, p5);
    lemma_pairs_in_turn(start, p1 + p2 + p3 + p4 + p5, p6);
    lemma_pairs_in_turn(start, p1 + p2 + p3 + p4 + p5 + p6, p7);
    assert(start.extra + fields.extra =~= fields.extra);
}

proof fn lemma_no_comma_in_entry(key: Seq<char>, value: Seq<char>)
    requires
        !key.contains(','),
        !value.contains(','),
    ensures
        !(key.push('=') + value).contains(','),
{
    let entry = key.push('=') + value;
    assert forall|i: int| 0 <= i < entry.len() implies entry[i] != ',' by {
        if i < key.len() {
            assert(key.contains(key[i]));
        } else if i > key.len() {
            assert(value.contains(value[i - key.len() - 1]));
        }
    }
}

proof fn lemma_no_comma_in_field(key: Seq<char>, value: Option<Seq<char>>)
    requires
        is_known_key(key),
        is_clean_field(value),
    ensures
        forall|i: int| 0 <= i < entry_of(key, value).len() ==> !(#[trigger] entry_of(key, value)[i]).contains(','),
{
    lemma_keys();
    if value is Some {
        lemma_no_comma_in_entry(key, value->Some_0);
    }
}

proof fn lemma_entries_hold_no_comma(fields: StreamIdFields, i: int)
    requires
        is_clean(fields),
        0 <= i < entries_of(fields).len(),
    ensures
        !entries_of(fields)[i].contains(','),
{
    let p1 = entry_of("r"@, fields.resource);
    let p2 = entry_of("m"@, fields.mode);
    let p3 = entry_of("s"@, fields.session_id);
    let p4 = entry_of("t"@, fields.content_type);
    let p5 = entry_of("u"@, fields.user_name);
    let p6 = entry_of("h"@, fields.host_name);
    let p7 = extra_entries(fields.extra);
    lemma_no_comma_in_field("r"@, fields.resource);
    lemma_no_comma_in_field("m"@, fields.mode);
    lemma_no_comma_in_field("s"@, fields.session_id);
    lemma_no_comma_in_field("t"@, fields.content_type);
    lemma_no_comma_in_field("u"@, fields.user_name);
    lemma_no_comma_in_field("h"@, fields.host_name);
    let n1 = p1.len() as int;
    let n2 = n1 + p2.len();
    let n3 = n2 + p3.len();
    let n4 = n3 + p4.len();
    let n5 = n4 + p5.len();
    let n6 = n5 + p6.len();
    let entry = entries_of(fields)[i];
    if i < n1 {
        assert(entry == p1[i]);
    } else if i < n2 {
        assert(entry == p2[i - n1]);
    } else if i < n3 {
        assert(entry == p3[i - n2]);
    } else if i < n4 {
        assert(entry == p4[i - n3]);
    } else if i < n5 {
        assert(entry == p5[i - n4]);
    } else if i < n6 {
        assert(entry == p6[i - n5]);
    } else {
        let pair = fields.extra[i - n6];
        assert(is_clean_extra(pair));
        assert(entry == pair.0.push('=') + pair.1);
        lemma_no_comma_in_entry(pair.0, pair.1);
    }
}

/// An entry without a comma sets a field to a value that can be written again.
proof fn lemma_pair_stays_clean(fields: StreamIdFields, entry: Seq<char>)
    requires
        is_clean(fields),
        !entry.contains(','),
    ensures
        is_clean(with_pair(fields, entry)),
{
    let pair = text::trimmed(entry);
    text::lemma_trimmed(entry);
    text::lemma_first_index(pair, '=');
    let eq = text::first_index(pair, '=');
    assert(!pair.contains(','));
    if eq < pair.len() {
        let key = pair.take(eq);
        let value = pair.skip(eq + 1);
        assert forall|i: int| 0 <= i < key.len() implies key[i] != ',' && key[i] != '=' by {
            assert(pair.contains(pair[i]));
        }
        assert forall|i: int| 0 <= i < value.len() implies value[i] != ',' by {
            assert(pair.contains(pair[i + eq + 1]));
        }
        assert(key.len() > 0 ==> key[0] == pair[0]);
        assert(value.len() > 0 ==> value.last() == pair.last());
        let next = with_pair(fields, entry);
        assert forall|i: int| 0 <= i < next.extra.len() implies is_clean_extra(
            #[trigger] next.extra[i],
        ) by {
            if i < fields.extra.len() {
                assert(next.extra[i] == fields.extra[i]);
            }
        }
    }
}

proof fn lemma_pairs_stay_clean(fields: StreamIdFields, entries: Seq<Seq<char>>)
    requires
        is_clean(fields),
        forall|i: int| 0 <= i < entries.len() ==> !(#[trigger] entries[i]).contains(','),
    ensures
        is_clean(with_pairs(fields, entries)),
    decreases entries.len(),
{
    if entries.len() > 0 {
        let rest = entries.drop_first();
        lemma_pair_stays_clean(fields, entries[0]);
        assert forall|i: int| 0 <= i < rest.len() implies !(#[trigger] rest[i]).contains(',') by {
            assert(rest[i] == entries[i + 1]);
        }
        lemma_pairs_stay_clean(with_pair(fields, entries[0]), rest);
    }
}

} // verus!
