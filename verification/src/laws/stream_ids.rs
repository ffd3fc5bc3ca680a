//! What Stream IDs stand for.

use vstd::prelude::*;

use crate::access_control;
use crate::access_control::{StreamIdFields, StreamIdInfo};
use crate::text;

verus! {

/// The view of a Stream ID shows all of its fields.
pub proof fn law_stream_ids_show_themselves(info: StreamIdInfo)
    ensures
        info@.resource is Some <==> info.resource is Some,
        info@.mode is Some <==> info.mode is Some,
        info@.session_id is Some <==> info.session_id is Some,
        info@.content_type is Some <==> info.content_type is Some,
        info@.user_name is Some <==> info.user_name is Some,
        info@.host_name is Some <==> info.host_name is Some,
        info.resource is Some ==> info@.resource == Some(info.resource->Some_0@),
        info.mode is Some ==> info@.mode == Some(info.mode->Some_0@),
        info.session_id is Some ==> info@.session_id == Some(info.session_id->Some_0@),
        info.content_type is Some ==> info@.content_type == Some(info.content_type->Some_0@),
        info.user_name is Some ==> info@.user_name == Some(info.user_name->Some_0@),
        info.host_name is Some ==> info@.host_name == Some(info.host_name->Some_0@),
        info@.extra.len() == info.extra@.len(),
        forall|i: int|
            0 <= i < info.extra@.len() ==> #[trigger] info@.extra[i] == (
                info.extra@[i].0@,
                info.extra@[i].1@,
            ),
        info@.raw == info.raw@,
{
}

/// Whether a Stream ID sets nothing.
pub open spec fn is_bare(fields: StreamIdFields) -> bool {
    &&& fields.resource is None
    &&& fields.mode is None
    &&& fields.session_id is None
    &&& fields.content_type is None
    &&& fields.user_name is None
    &&& fields.host_name is None
    &&& fields.extra.len() == 0
}

/// A Stream ID keeps the text it was read from. An empty one sets nothing, and neither does
/// a default one; one that is not structured is the name of a resource, and sets nothing
/// else.
pub proof fn law_plain_stream_ids(s: &str, info: StreamIdInfo, default: StreamIdInfo)
    requires
        call_ensures(StreamIdInfo::parse, (s,), info),
        call_ensures(<StreamIdInfo as Default>::default, (), default),
    ensures
        is_bare(default@) && default@.raw.len() == 0,
        s@.len() == 0 ==> is_bare(info@) && info@.raw == s@,
        s@.len() > 0 && !(s@.len() >= 4 && s@[0] == '#' && s@[1] == '!' && s@[2] == ':' && s@[3]
            == ':') ==> info@.resource == Some(s@) && info@.raw == s@ && is_bare(
            StreamIdFields { resource: None, ..info@ },
        ),
{
    reveal_strlit("#!::");
    if "#!::"@.is_prefix_of(s@) {
        assert("#!::"@ =~= s@.subrange(0, 4));
        assert(s@[0] == "#!::"@[0] && s@[1] == "#!::"@[1] && s@[2] == "#!::"@[2] && s@[3]
            == "#!::"@[3]);
    }
}

/// How fields relate to those without one entry. Each key has its own field, which it sets
/// to the value, and sets no other; a key without a field goes to the end of the others.
pub open spec fn adds(
    fields: StreamIdFields,
    more: StreamIdFields,
    key: Seq<char>,
    value: Seq<char>,
) -> bool {
    &&& more.resource == if key == seq!['r'] {
        Some(value)
    } else {
        fields.resource
    }
    &&& more.mode == if key == seq!['m'] {
        Some(value)
    } else {
        fields.mode
    }
    &&& more.session_id == if key == seq!['s'] {
        Some(value)
    } else {
        fields.session_id
    }
    &&& more.content_type == if key == seq!['t'] {
        Some(value)
    } else {
        fields.content_type
    }
    &&& more.user_name == if key == seq!['u'] {
        Some(value)
    } else {
        fields.user_name
    }
    &&& more.host_name == if key == seq!['h'] {
        Some(value)
    } else {
        fields.host_name
    }
    &&& more.extra == if key.len() == 1 && (key[0] == 'r' || key[0] == 'm' || key[0] == 's'
        || key[0] == 't' || key[0] == 'u' || key[0] == 'h') {
        fields.extra
    } else {
        fields.extra.push((key, value))
    }
}

/// Whether two Stream IDs set the same, whatever they were read from.
pub open spec fn sets_the_same(fields: StreamIdFields, more: StreamIdFields) -> bool {
    more == (StreamIdFields { raw: more.raw, ..fields })
}

/// Reading an entry sets what its key names.
proof fn lemma_entry(fields: StreamIdFields, entry: Seq<char>, key: Seq<char>, value: Seq<char>)
    ensures
        !text::trimmed(entry).contains('=') ==> access_control::with_pair(fields, entry) == fields,
        text::trimmed(entry) == key.push('=') + value && !key.contains('=') ==> adds(
            fields,
            access_control::with_pair(fields, entry),
            key,
            value,
        ) && access_control::with_pair(fields, entry).raw == fields.raw,
{
    let pair = text::trimmed(entry);
    if !pair.contains('=') {
        assert forall|i: int| 0 <= i < pair.len() implies #[trigger] pair[i] != '=' by {
            assert(pair.contains(pair[i]));
        }
        text::lemma_first_index_is(pair, '=', pair.len() as int);
    }
    if pair == key.push('=') + value && !key.contains('=') {
        assert forall|i: int| 0 <= i < key.len() implies #[trigger] pair[i] != '=' by {
            assert(pair[i] == key[i]);
            assert(key.contains(key[i]));
        }
        text::lemma_first_index_is(pair, '=', key.len() as int);
        assert(pair.take(key.len() as int) =~= key);
        assert(pair.skip(key.len() as int + 1) =~= value);
        reveal_strlit("r");
        reveal_strlit("m");
        reveal_strlit("s");
        reveal_strlit("t");
        reveal_strlit("u");
        reveal_strlit("h");
        assert("r"@ =~= seq!['r']);
        assert("m"@ =~= seq!['m']);
        assert("s"@ =~= seq!['s']);
        assert("t"@ =~= seq!['t']);
        assert("u"@ =~= seq!['u']);
        assert("h"@ =~= seq!['h']);
        assert(seq!['r'][0] == 'r' && seq!['m'][0] == 'm' && seq!['s'][0] == 's' && seq!['t'][0]
            == 't' && seq!['u'][0] == 'u' && seq!['h'][0] == 'h');
        if key.len() == 1 {
            assert(key =~= seq![key[0]]);
        }
    }
}

/// What entries set does not depend on the text they were read from.
proof fn lemma_raw_stays(fields: StreamIdFields, raw: Seq<char>, entries: Seq<Seq<char>>)
    ensures
        access_control::with_pairs(StreamIdFields { raw, ..fields }, entries) == (StreamIdFields {
            raw,
            ..access_control::with_pairs(fields, entries)
        }),
        access_control::with_pairs(fields, entries).raw == fields.raw,
    decreases entries.len(),
{
    if entries.len() > 0 {
        let next = access_control::with_pair(fields, entries[0]);
        assert(access_control::with_pair(StreamIdFields { raw, ..fields }, entries[0]) == (
        StreamIdFields { raw, ..next }));
        lemma_raw_stays(next, raw, entries.drop_first());
    }
}

/// A structured Stream ID of one entry sets what that entry names: the key stands before
/// the first equals sign, and the value behind it. An entry without an equals sign sets
/// nothing.
pub proof fn law_one_entry(
    s: &str,
    entry: Seq<char>,
    key: Seq<char>,
    value: Seq<char>,
    info: StreamIdInfo,
    none: StreamIdInfo,
)
    requires
        call_ensures(StreamIdInfo::parse, (s,), info),
        call_ensures(<StreamIdInfo as Default>::default, (), none),
        s@ == seq!['#', '!', ':', ':'] + entry,
        !entry.contains(','),
    ensures
        info@.raw == s@,
        !text::trimmed(entry).contains('=') ==> is_bare(info@),
        text::trimmed(entry) == key.push('=') + value && !key.contains('=') ==> adds(
            none@,
            info@,
            key,
            value,
        ),
{
    reveal_strlit("#!::");
    assert("#!::"@ =~= s@.subrange(0, 4));
    assert(s@.skip(4) =~= entry);
    text::lemma_pieces_of_one(entry, ',');
    let fields = access_control::no_fields(s@);
    let one = seq![entry];
    assert(one.drop_first().len() == 0);
    assert(one[0] == entry);
    assert(access_control::with_pairs(access_control::with_pair(fields, entry), one.drop_first())
        == access_control::with_pair(fields, entry));
    lemma_entry(fields, entry, key, value);
}

/// An entry behind a structured Stream ID sets what it names, and leaves all that was set
/// before as it is.
pub proof fn law_one_more_entry(
    shorter: &str,
    longer: &str,
    entry: Seq<char>,
    key: Seq<char>,
    value: Seq<char>,
    info: StreamIdInfo,
    more: StreamIdInfo,
)
    requires
        call_ensures(StreamIdInfo::parse, (shorter,), info),
        call_ensures(StreamIdInfo::parse, (longer,), more),
        shorter@.len() >= 4,
        shorter@.take(4) == seq!['#', '!', ':', ':'],
        longer@ == shorter@.push(',') + entry,
        !entry.contains(','),
    ensures
        more@.raw == longer@,
        !text::trimmed(entry).contains('=') ==> sets_the_same(info@, more@),
        text::trimmed(entry) == key.push('=') + value && !key.contains('=') ==> adds(
            info@,
            more@,
            key,
            value,
        ),
{
    reveal_strlit("#!::");
    assert("#!::"@ =~= shorter@.subrange(0, 4)) by {
        assert(shorter@.take(4) =~= shorter@.subrange(0, 4));
    }
    assert("#!::"@ =~= longer@.subrange(0, 4)) by {
        assert(longer@.subrange(0, 4) =~= shorter@.take(4));
    }
    assert(longer@.skip(4) =~= shorter@.skip(4).push(',') + entry);
    text::lemma_pieces_of_both(shorter@.skip(4), entry, ',');
    text::lemma_pieces_of_one(entry, ',');
    let entries = text::pieces(shorter@.skip(4), ',');
    let one = seq![entry];
    let start = access_control::no_fields(longer@);
    access_control::lemma_pairs_in_turn(start, entries, one);
    lemma_raw_stays(access_control::no_fields(shorter@), longer@, entries);
    assert(start == (StreamIdFields { raw: longer@, ..access_control::no_fields(shorter@) }));
    let fields = access_control::with_pairs(start, entries);
    assert(one.drop_first().len() == 0);
    assert(one[0] == entry);
    assert(access_control::with_pairs(access_control::with_pair(fields, entry), one.drop_first())
        == access_control::with_pair(fields, entry));
    lemma_entry(fields, entry, key, value);
}

/// A structured Stream ID with one more field, where the field is set.
pub open spec fn with_one_more(so_far: Seq<char>, key: Seq<char>, value: Option<Seq<char>>) -> Seq<
    char,
> {
    match value {
        Some(v) => (if so_far.len() == 0 {
            seq!['#', '!', ':', ':']
        } else {
            so_far.push(',')
        }) + key.push('=') + v,
        None => so_far,
    }
}

proof fn lemma_with_one_more(entries: Seq<Seq<char>>, key: Seq<char>, value: Option<Seq<char>>)
    ensures
        access_control::listed(entries + access_control::entry_of(key, value)) == with_one_more(
            access_control::listed(entries),
            key,
            value,
        ),
{
    reveal_strlit("#!::");
    assert("#!::"@ =~= seq!['#', '!', ':', ':']);
    match value {
        Some(v) => {
            let entry = key.push('=') + v;
            assert(entries + access_control::entry_of(key, value) =~= entries.push(entry));
            if entries.len() == 0 {
                assert(entries.push(entry) =~= seq![entry]);
                assert(text::joined(seq![entry], ',') == entry);
                assert(access_control::listed(entries.push(entry)) =~= with_one_more(
                    access_control::listed(entries),
                    key,
                    value,
                ));
            } else {
                text::lemma_joined_push(entries, entry, ',');
                assert(access_control::listed(entries.push(entry)) =~= with_one_more(
                    access_control::listed(entries),
                    key,
                    value,
                ));
            }
        },
        None => {
            assert(entries + access_control::entry_of(key, value) =~= entries);
        },
    }
}

/// The fields that are set are written in their order, each behind its own key; nothing is
/// written where none is.
pub proof fn law_fields_are_written(info: &StreamIdInfo, s: String)
    requires
        call_ensures(StreamIdInfo::to_stream_id, (info,), s),
        info@.extra.len() == 0,
    ensures
        ({
            let r = with_one_more(Seq::empty(), seq!['r'], info@.resource);
            let m = with_one_more(r, seq!['m'], info@.mode);
            let i = with_one_more(m, seq!['s'], info@.session_id);
            let t = with_one_more(i, seq!['t'], info@.content_type);
            let u = with_one_more(t, seq!['u'], info@.user_name);
            s@ == with_one_more(u, seq!['h'], info@.host_name)
        }),
{
    reveal_strlit("r");
    reveal_strlit("m");
    reveal_strlit("s");
    reveal_strlit("t");
    reveal_strlit("u");
    reveal_strlit("h");
    assert("r"@ =~= seq!['r']);
    assert("m"@ =~= seq!['m']);
    assert("s"@ =~= seq!['s']);
    assert("t"@ =~= seq!['t']);
    assert("u"@ =~= seq!['u']);
    assert("h"@ =~= seq!['h']);
    let e0 = Seq::<Seq<char>>::empty();
    let e1 = e0 + access_control::entry_of("r"@, info@.resource);
    let e2 = e1 + access_control::entry_of("m"@, info@.mode);
    let e3 = e2 + access_control::entry_of("s"@, info@.session_id);
    let e4 = e3 + access_control::entry_of("t"@, info@.content_type);
    let e5 = e4 + access_control::entry_of("u"@, info@.user_name);
    let e6 = e5 + access_control::entry_of("h"@, info@.host_name);
    lemma_with_one_more(e0, "r"@, info@.resource);
    lemma_with_one_more(e1, "m"@, info@.mode);
    lemma_with_one_more(e2, "s"@, info@.session_id);
    lemma_with_one_more(e3, "t"@, info@.content_type);
    lemma_with_one_more(e4, "u"@, info@.user_name);
    lemma_with_one_more(e5, "h"@, info@.host_name);
    assert(access_control::entries_of(info@) =~= e6);
}

/// A further field that has no key of its own is written behind all others.
pub proof fn law_other_fields_are_written(
    info: &StreamIdInfo,
    more: &StreamIdInfo,
    key: Seq<char>,
    value: Seq<char>,
    s: String,
    longer: String,
)
    requires
        call_ensures(StreamIdInfo::to_stream_id, (info,), s),
        call_ensures(StreamIdInfo::to_stream_id, (more,), longer),
        more@.extra == info@.extra.push((key, value)),
        more@ == (StreamIdFields { extra: more@.extra, raw: more@.raw, ..info@ }),
    ensures
        longer@ == with_one_more(s@, key, Some(value)),
{
    let entries = access_control::entries_of(info@);
    lemma_with_one_more(entries, key, Some(value));
    assert(access_control::entries_of(more@) =~= entries + access_control::entry_of(
        key,
        Some(value),
    ));
}

} // verus!
