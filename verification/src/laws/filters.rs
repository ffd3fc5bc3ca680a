//! What packet filter strings stand for.

use vstd::prelude::*;

use crate::fec;
use crate::fec::{ArqMode, FecConfig, FecLayout};
use crate::text;

verus! {

/// A filter that names no parameter has ten columns, one row, the staircase layout and
/// retransmission on request. White space around the string and its name does not count.
pub proof fn law_a_bare_filter(
    config_str: &str,
    r: Result<FecConfig, String>,
    config: FecConfig,
)
    requires
        call_ensures(FecConfig::parse, (config_str,), r),
        !config_str@.contains(','),
        call_ensures(<FecConfig as Default>::default, (), config),
    ensures
        config.cols == 10,
        config.rows == 1,
        config.layout == FecLayout::Staircase,
        config.arq == ArqMode::OnReq,
        text::trimmed(config_str@) == "fec"@ ==> r == Ok::<FecConfig, String>(config),
        text::trimmed(config_str@).len() == 0 ==> r is Err && r->Err_0@ == "empty config string"@,
        text::trimmed(config_str@).len() > 0 && text::trimmed(config_str@) != "fec"@ ==> r is Err
            && r->Err_0@ == "config must start with 'fec', got '"@ + text::trimmed(config_str@)
            + "'"@,
{
    let s = config_str@;
    let filter = text::trimmed(s);
    text::lemma_trimmed(s);
    assert forall|i: int| 0 <= i < filter.len() implies #[trigger] filter[i] != ',' by {
        assert(filter.contains(filter[i]));
    }
    text::lemma_first_index_is(filter, ',', filter.len() as int);
    assert(filter.take(filter.len() as int) =~= filter);
    if filter.len() > 0 {
        text::lemma_trimmed_is_itself(filter);
    }
    reveal_strlit("fec");
}

/// The name of a filter is what stands before the first comma, without the white space
/// around it. A string with another name is refused, whatever it sets.
pub proof fn law_other_filters_are_refused(
    config_str: &str,
    name: Seq<char>,
    params: Seq<char>,
    r: Result<FecConfig, String>,
)
    requires
        call_ensures(FecConfig::parse, (config_str,), r),
        text::is_trimmed(config_str@),
        config_str@ == name.push(',') + params,
        !name.contains(','),
        text::trimmed(name) != "fec"@,
    ensures
        r is Err,
        r->Err_0@ == "config must start with 'fec', got '"@ + name + "'"@,
{
    let s = config_str@;
    text::lemma_trimmed_is_itself(s);
    assert forall|i: int| 0 <= i < name.len() implies #[trigger] s[i] != ',' by {
        assert(s[i] == name[i]);
        assert(name.contains(name[i]));
    }
    text::lemma_first_index_is(s, ',', name.len() as int);
    assert(s.take(name.len() as int) =~= name);
}

/// A string that stands for a configuration names the filter.
proof fn lemma_is_filter(shorter: &str, config: FecConfig)
    requires
        call_ensures(FecConfig::parse, (shorter,), Ok::<FecConfig, String>(config)),
    ensures
        fec::is_filter(shorter@),
        fec::parsed(shorter@) == Ok::<FecConfig, Seq<char>>(config),
{
}

/// The number of columns is a number of at least one, and sets nothing but the columns.
pub proof fn law_columns(
    shorter: &str,
    longer: &str,
    config: FecConfig,
    key: Seq<char>,
    value: Seq<char>,
    r: Result<FecConfig, String>,
)
    requires
        call_ensures(FecConfig::parse, (shorter,), Ok::<FecConfig, String>(config)),
        call_ensures(FecConfig::parse, (longer,), r),
        longer@ == shorter@.push(',') + (key.push(':') + value),
        !key.contains(':') && !key.contains(',') && !value.contains(','),
        text::trimmed(key) == "cols"@,
    ensures
        match text::usize_number(text::trimmed(value)) {
            Some(n) => if n >= 1 {
                r is Ok && r->Ok_0.cols == n && r->Ok_0.rows == config.rows && r->Ok_0.layout
                    == config.layout && r->Ok_0.arq == config.arq
            } else {
                r is Err && r->Err_0@ == "cols must be >= 1"@
            },
            None => r is Err && r->Err_0@ == "invalid cols value: '"@ + text::trimmed(value)
                + "'"@,
        },
{
    lemma_is_filter(shorter, config);
    lemma_no_comma(key, value);
    fec::lemma_entry_behind(shorter@, key.push(':') + value);
    fec::lemma_any_entry(config, key, value);
}

/// The number of rows is a number that is not zero, of which the sign does not count, and
/// sets nothing but the rows.
pub proof fn law_rows(
    shorter: &str,
    longer: &str,
    config: FecConfig,
    key: Seq<char>,
    value: Seq<char>,
    r: Result<FecConfig, String>,
)
    requires
        call_ensures(FecConfig::parse, (shorter,), Ok::<FecConfig, String>(config)),
        call_ensures(FecConfig::parse, (longer,), r),
        longer@ == shorter@.push(',') + (key.push(':') + value),
        !key.contains(':') && !key.contains(',') && !value.contains(','),
        text::trimmed(key) == "rows"@,
    ensures
        match text::i64_number(text::trimmed(value)) {
            Some(n) => {
                &&& 1 <= n <= usize::MAX ==> r is Ok && r->Ok_0 == (FecConfig {
                    rows: n as usize,
                    ..config
                })
                &&& 1 <= -n <= usize::MAX ==> r is Ok && r->Ok_0 == (FecConfig {
                    rows: (-n) as usize,
                    ..config
                })
                &&& n == 0 ==> r is Err && r->Err_0@ == "rows must be >= 1"@
            },
            None => r is Err && r->Err_0@ == "invalid rows value: '"@ + text::trimmed(value)
                + "'"@,
        },
{
    lemma_is_filter(shorter, config);
    lemma_no_comma(key, value);
    fec::lemma_entry_behind(shorter@, key.push(':') + value);
    fec::lemma_any_entry(config, key, value);
    reveal_strlit("rows");
    reveal_strlit("cols");
    assert("rows"@[0] == 'r' && "cols"@[0] == 'c');
}

/// The layout is even or a staircase, and sets nothing but the layout.
pub proof fn law_layout(
    shorter: &str,
    longer: &str,
    config: FecConfig,
    key: Seq<char>,
    value: Seq<char>,
    r: Result<FecConfig, String>,
)
    requires
        call_ensures(FecConfig::parse, (shorter,), Ok::<FecConfig, String>(config)),
        call_ensures(FecConfig::parse, (longer,), r),
        longer@ == shorter@.push(',') + (key.push(':') + value),
        !key.contains(':') && !key.contains(',') && !value.contains(','),
        text::trimmed(key) == "layout"@,
    ensures
        text::trimmed(value) == "even"@ ==> r is Ok && r->Ok_0 == (FecConfig {
            layout: FecLayout::Even,
            ..config
        }),
        text::trimmed(value) == "staircase"@ ==> r is Ok && r->Ok_0 == (FecConfig {
            layout: FecLayout::Staircase,
            ..config
        }),
        text::trimmed(value) != "even"@ && text::trimmed(value) != "staircase"@ ==> r is Err
            && r->Err_0@ == "invalid layout: '"@ + text::trimmed(value)
            + "', expected 'even' or 'staircase'"@,
{
    lemma_is_filter(shorter, config);
    lemma_no_comma(key, value);
    fec::lemma_entry_behind(shorter@, key.push(':') + value);
    fec::lemma_any_entry(config, key, value);
    reveal_strlit("rows");
    reveal_strlit("cols");
    reveal_strlit("layout");
    reveal_strlit("even");
    reveal_strlit("staircase");
    assert("rows"@.len() == 4 && "cols"@.len() == 4 && "layout"@.len() == 6);
    assert("even"@.len() == 4 && "staircase"@.len() == 9);
}

/// Retransmission is always, on request or never, and sets nothing but retransmission.
pub proof fn law_retransmission(
    shorter: &str,
    longer: &str,
    config: FecConfig,
    key: Seq<char>,
    value: Seq<char>,
    r: Result<FecConfig, String>,
)
    requires
        call_ensures(FecConfig::parse, (shorter,), Ok::<FecConfig, String>(config)),
        call_ensures(FecConfig::parse, (longer,), r),
        longer@ == shorter@.push(',') + (key.push(':') + value),
        !key.contains(':') && !key.contains(',') && !value.contains(','),
        text::trimmed(key) == "arq"@,
    ensures
        text::trimmed(value) == "always"@ ==> r is Ok && r->Ok_0 == (FecConfig {
            arq: ArqMode::Always,
            ..config
        }),
        text::trimmed(value) == "onreq"@ ==> r is Ok && r->Ok_0 == (FecConfig {
            arq: ArqMode::OnReq,
            ..config
        }),
        text::trimmed(value) == "never"@ ==> r is Ok && r->Ok_0 == (FecConfig {
            arq: ArqMode::Never,
            ..config
        }),
        text::trimmed(value) != "always"@ && text::trimmed(value) != "onreq"@ && text::trimmed(
            value,
        ) != "never"@ ==> r is Err && r->Err_0@ == "invalid arq: '"@ + text::trimmed(value)
            + "', expected 'always', 'onreq', or 'never'"@,
{
    lemma_is_filter(shorter, config);
    lemma_no_comma(key, value);
    fec::lemma_entry_behind(shorter@, key.push(':') + value);
    fec::lemma_any_entry(config, key, value);
    reveal_strlit("rows");
    reveal_strlit("cols");
    reveal_strlit("layout");
    reveal_strlit("arq");
    reveal_strlit("always");
    reveal_strlit("onreq");
    reveal_strlit("never");
    assert("rows"@.len() == 4 && "cols"@.len() == 4 && "layout"@.len() == 6 && "arq"@.len() == 3);
    assert("always"@[0] == 'a' && "onreq"@[0] == 'o' && "never"@[0] == 'n');
}

/// Any other key is passed over; so is an entry that is empty. An entry without a colon is
/// refused.
pub proof fn law_other_entries(
    shorter: &str,
    longer: &str,
    config: FecConfig,
    entry: Seq<char>,
    key: Seq<char>,
    value: Seq<char>,
    r: Result<FecConfig, String>,
)
    requires
        call_ensures(FecConfig::parse, (shorter,), Ok::<FecConfig, String>(config)),
        call_ensures(FecConfig::parse, (longer,), r),
        longer@ == shorter@.push(',') + entry,
        !entry.contains(','),
    ensures
        text::trimmed(entry).len() == 0 ==> r == Ok::<FecConfig, String>(config),
        text::trimmed(entry).len() > 0 && !text::trimmed(entry).contains(':') ==> r is Err
            && r->Err_0@ == "invalid parameter '"@ + text::trimmed(entry)
            + "', expected key:value"@,
        entry == key.push(':') + value && !key.contains(':') && text::trimmed(key) != "cols"@
            && text::trimmed(key) != "rows"@ && text::trimmed(key) != "layout"@ && text::trimmed(
            key,
        ) != "arq"@ ==> r == Ok::<FecConfig, String>(config),
{
    lemma_is_filter(shorter, config);
    fec::lemma_entry_behind(shorter@, entry);
    if entry == key.push(':') + value && !key.contains(':') {
        fec::lemma_any_entry(config, key, value);
    }
    let param = text::trimmed(entry);
    if !param.contains(':') {
        assert forall|i: int| 0 <= i < param.len() implies #[trigger] param[i] != ':' by {
            assert(param.contains(param[i]));
        }
        text::lemma_first_index_is(param, ':', param.len() as int);
    }
}

/// The first complaint stands: what comes behind an entry that was refused does not matter.
pub proof fn law_the_first_complaint_stands(
    shorter: &str,
    longer: &str,
    complaint: String,
    entry: Seq<char>,
    r: Result<FecConfig, String>,
)
    requires
        call_ensures(FecConfig::parse, (shorter,), Err::<FecConfig, String>(complaint)),
        call_ensures(FecConfig::parse, (longer,), r),
        fec::is_filter(shorter@),
        longer@ == shorter@.push(',') + entry,
        !entry.contains(','),
    ensures
        r is Err,
        r->Err_0@ == complaint@,
{
    fec::lemma_entry_behind(shorter@, entry);
}

proof fn lemma_no_comma(key: Seq<char>, value: Seq<char>)
    requires
        !key.contains(','),
        !value.contains(','),
    ensures
        !(key.push(':') + value).contains(','),
{
    let entry = key.push(':') + value;
    assert forall|i: int| 0 <= i < entry.len() implies entry[i] != ',' by {
        if i < key.len() {
            assert(key.contains(key[i]));
        } else if i > key.len() {
            assert(value.contains(value[i - key.len() - 1]));
        }
    }
}

/// The string of a configuration, with its parts in their order.
pub proof fn law_filter_strings(config: &FecConfig, t: String)
    requires
        call_ensures(FecConfig::to_string, (config,), t),
    ensures
        t@ == "fec,cols:"@ + text::decimal(config.cols as nat) + ",rows:"@ + text::decimal(
            config.rows as nat,
        ) + ",layout:"@ + (if config.layout == FecLayout::Even {
            "even"@
        } else {
            "staircase"@
        }) + ",arq:"@ + (if config.arq == ArqMode::Always {
            "always"@
        } else if config.arq == ArqMode::OnReq {
            "onreq"@
        } else {
            "never"@
        }),
{
}

/// The string of a configuration reads back as the configuration.
pub proof fn law_written_filters_read_back(
    config: &FecConfig,
    t: String,
    s: &str,
    r: Result<FecConfig, String>,
)
    requires
        config.cols >= 1,
        1 <= config.rows <= i64::MAX,
        call_ensures(FecConfig::to_string, (config,), t),
        s@ == t@,
        call_ensures(FecConfig::parse, (s,), r),
    ensures
        r == Ok::<FecConfig, String>(*config),
{
    fec::law_filter_string_reads_back(*config);
}

} // verus!
