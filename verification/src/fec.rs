//! The packet filter configuration of forward error correction.
//!
//! Encoding and decoding are libsrt's; this module reads and writes the
//! configuration strings, so that a packet filter can be checked before a
//! connection is made.

use vstd::prelude::*;
use vstd::string::*;

use crate::text;

verus! {

/// FEC matrix layout.
#[derive(Debug, Clone, Copy, PartialEq, Eq, Structural)]
pub enum FecLayout {
    Even,
    Staircase,
}

/// ARQ interaction mode with FEC.
#[derive(Debug, Clone, Copy, PartialEq, Eq, Structural)]
pub enum ArqMode {
    Always,
    OnReq,
    Never,
}

/// FEC filter configuration.
///
/// Written as `fec,cols:10,rows:5,layout:staircase,arq:onreq`.
#[derive(Debug, Clone, Copy, PartialEq, Eq, Structural)]
pub struct FecConfig {
    pub cols: usize,
    pub rows: usize,
    pub layout: FecLayout,
    pub arq: ArqMode,
}

/// The configuration of a filter that names no parameter.
pub open spec fn default_config() -> FecConfig {
    FecConfig { cols: 10, rows: 1, layout: FecLayout::Staircase, arq: ArqMode::OnReq }
}

/// How many rows a signed row count stands for.
pub open spec fn row_count(raw: i64) -> usize {
    (if raw < 0 {
        -raw
    } else {
        raw as int
    }) as u64 as usize
}

/// What a parameter with the given key and value makes of a configuration, or
/// the complaint about it. Keys that are not known change nothing.
pub open spec fn with_parameter(config: FecConfig, key: Seq<char>, value: Seq<char>) -> Result<
    FecConfig,
    Seq<char>,
> {
    if key == "cols"@ {
        match text::usize_number(value) {
            None => Err("invalid cols value: '"@ + value + "'"@),
            Some(n) => if n == 0 {
                Err("cols must be >= 1"@)
            } else {
                Ok(FecConfig { cols: n, ..config })
            },
        }
    } else if key == "rows"@ {
        match text::i64_number(value) {
            None => Err("invalid rows value: '"@ + value + "'"@),
            Some(raw) => if row_count(raw) == 0 {
                Err("rows must be >= 1"@)
            } else {
                Ok(FecConfig { rows: row_count(raw), ..config })
            },
        }
    } else if key == "layout"@ {
        if value == "even"@ {
            Ok(FecConfig { layout: FecLayout::Even, ..config })
        } else if value == "staircase"@ {
            Ok(FecConfig { layout: FecLayout::Staircase, ..config })
        } else {
            Err("invalid layout: '"@ + value + "', expected 'even' or 'staircase'"@)
        }
    } else if key == "arq"@ {
        if value == "always"@ {
            Ok(FecConfig { arq: ArqMode::Always, ..config })
        } else if value == "onreq"@ {
            Ok(FecConfig { arq: ArqMode::OnReq, ..config })
        } else if value == "never"@ {
            Ok(FecConfig { arq: ArqMode::Never, ..config })
        } else {
            Err("invalid arq: '"@ + value + "', expected 'always', 'onreq', or 'never'"@)
        }
    } else {
        Ok(config)
    }
}

/// What one entry of the parameter list makes of a configuration. White space
/// around the entry, its key and its value does not count; an empty entry
/// changes nothing.
pub open spec fn with_entry(config: FecConfig, entry: Seq<char>) -> Result<FecConfig, Seq<char>> {
    let param = text::trimmed(entry);
    let colon = text::first_index(param, ':');
    if param.len() == 0 {
        Ok(config)
    } else if colon >= param.len() {
        Err("invalid parameter '"@ + param + "', expected key:value"@)
    } else {
        with_parameter(config, text::trimmed(param.take(colon)), text::trimmed(param.skip(colon + 1)))
    }
}

/// What a list of entries makes of a configuration: each in turn, up to the
/// first complaint.
pub open spec fn with_entries(config: FecConfig, entries: Seq<Seq<char>>) -> Result<
    FecConfig,
    Seq<char>,
>
    decreases entries.len(),
{
    if entries.len() == 0 {
        Ok(config)
    } else {
        match with_entry(config, entries[0]) {
            Ok(next) => with_entries(next, entries.drop_first()),
            Err(complaint) => Err(complaint),
        }
    }
}

/// The configuration that a packet filter string stands for, or the complaint
/// about it.
pub open spec fn parsed(s: Seq<char>) -> Result<FecConfig, Seq<char>> {
    let filter = text::trimmed(s);
    let comma = text::first_index(filter, ',');
    let name = filter.take(comma);
    if filter.len() == 0 {
        Err("empty config string"@)
    } else if text::trimmed(name) != "fec"@ {
        Err("config must start with 'fec', got '"@ + name + "'"@)
    } else if comma >= filter.len() {
        Ok(default_config())
    } else {
        with_entries(default_config(), text::pieces(filter.skip(comma + 1), ','))
    }
}

/// The notation of a layout.
pub open spec fn layout_name(layout: FecLayout) -> Seq<char> {
    match layout {
        FecLayout::Even => "even"@,
        FecLayout::Staircase => "staircase"@,
    }
}

/// The notation of an ARQ mode.
pub open spec fn arq_name(arq: ArqMode) -> Seq<char> {
    match arq {
        ArqMode::Always => "always"@,
        ArqMode::OnReq => "onreq"@,
        ArqMode::Never => "never"@,
    }
}

/// The packet filter string of a configuration.
pub open spec fn formatted(config: FecConfig) -> Seq<char> {
    "fec,cols:"@ + text::decimal(config.cols as nat) + ",rows:"@ + text::decimal(config.rows as nat)
        + ",layout:"@ + layout_name(config.layout) + ",arq:"@ + arq_name(config.arq)
}

/// Whether a parse result is the given one.
pub open spec fn agrees(r: Result<FecConfig, String>, expected: Result<FecConfig, Seq<char>>) -> bool {
    match r {
        Ok(config) => expected == Ok::<FecConfig, Seq<char>>(config),
        Err(complaint) => expected == Err::<FecConfig, Seq<char>>(complaint@),
    }
}

/// The text `before`, then the quoted text, then `after`.
fn quoting(before: &str, quoted: &[char], after: &str) -> (t: String)
    ensures
        t@ == before@ + quoted@ + after@,
{
    let mut t = before.to_owned();
    t.append(text::string_of(quoted).as_str());
    t.append(after);
    t
}

impl Default for FecConfig {
    fn default() -> (config: FecConfig)
        ensures
            config == default_config(),
    {
        FecConfig { cols: 10, rows: 1, layout: FecLayout::Staircase, arq: ArqMode::OnReq }
    }
}

impl FecConfig {
    /// Reads a packet filter string such as
    /// `fec,cols:10,rows:5,layout:staircase,arq:onreq`.
    pub fn parse(config_str: &str) -> (r: Result<FecConfig, String>)
        ensures
            agrees(r, parsed(config_str@)),
    {
        let all = text::chars_of(config_str);
        let filter = text::trim(all.as_slice());
        if filter.len() == 0 {
            return Err("empty config string".to_owned());
        }
        let comma: usize = text::find(filter, ',');
        let name = vstd::slice::slice_subrange(filter, 0, comma);
        assert(name@ =~= filter@.take(comma as int));
        if !text::same_text(text::trim(name), "fec") {
            return Err(quoting("config must start with 'fec', got '", name, "'"));
        }
        let mut config = FecConfig::default();
        if comma == filter.len() {
            return Ok(config);
        }
        let params = vstd::slice::slice_subrange(filter, comma + 1, filter.len());
        assert(params@ =~= filter@.skip(comma + 1));
        let mut from: usize = 0;
        assert(params@.skip(0) =~= params@);
        loop
            invariant
                from <= params@.len(),
                parsed(config_str@) == with_entries(
                    config,
                    text::pieces(params@.skip(from as int), ','),
                ),
            decreases params@.len() - from,
        {
            let rest = vstd::slice::slice_subrange(params, from, params.len());
            assert(rest@ =~= params@.skip(from as int));
            let end: usize = text::find(rest, ',');
            let entry = vstd::slice::slice_subrange(rest, 0, end);
            let ghost all_pieces = text::pieces(rest@, ',');
            assert(entry@ =~= all_pieces[0]) by {
                assert(rest@.take(rest@.len() as int) =~= rest@);
            }
            match Self::apply_entry(config, entry) {
                Ok(next) => {
                    config = next;
                },
                Err(complaint) => {
                    return Err(complaint);
                },
            }
            if end == rest.len() {
                assert(all_pieces.drop_first().len() == 0);
                assert(with_entries(config, all_pieces.drop_first()) == Ok::<FecConfig, Seq<char>>(
                    config,
                ));
                return Ok(config);
            }
            assert(all_pieces.drop_first() =~= text::pieces(rest@.skip(end + 1), ','));
            assert(rest@.skip(end + 1) =~= params@.skip(from + end + 1));
            from = from + end + 1;
        }
    }

    /// Applies one entry of the parameter list.
    fn apply_entry(config: FecConfig, entry: &[char]) -> (r: Result<FecConfig, String>)
        ensures
            agrees(r, with_entry(config, entry@)),
    {
        let param = text::trim(entry);
        if param.len() == 0 {
            return Ok(config);
        }
        let colon: usize = text::find(param, ':');
        if colon == param.len() {
            return Err(quoting("invalid parameter '", param, "', expected key:value"));
        }
        let key = vstd::slice::slice_subrange(param, 0, colon);
        let value = vstd::slice::slice_subrange(param, colon + 1, param.len());
        assert(key@ =~= param@.take(colon as int));
        assert(value@ =~= param@.skip(colon + 1));
        Self::apply_parameter(config, text::trim(key), text::trim(value))
    }

    /// Applies one parameter.
    fn apply_parameter(config: FecConfig, key: &[char], value: &[char]) -> (r: Result<
        FecConfig,
        String,
    >)
        ensures
            agrees(r, with_parameter(config, key@, value@)),
    {
        if text::same_text(key, "cols") {
            match text::parse_usize(value) {
                None => Err(quoting("invalid cols value: '", value, "'")),
                Some(n) => if n == 0 {
                    Err("cols must be >= 1".to_owned())
                } else {
                    Ok(FecConfig { cols: n, ..config })
                },
            }
        } else if text::same_text(key, "rows") {
            match text::parse_i64(value) {
                None => Err(quoting("invalid rows value: '", value, "'")),
                Some(raw) => {
                    let magnitude: u64 = if raw < 0 {
                        if raw == i64::MIN {
                            0x8000_0000_0000_0000
                        } else {
                            (-raw) as u64
                        }
                    } else {
                        raw as u64
                    };
                    let rows: usize = magnitude as usize;
                    if rows == 0 {
                        Err("rows must be >= 1".to_owned())
                    } else {
                        Ok(FecConfig { rows, ..config })
                    }
                },
            }
        } else if text::same_text(key, "layout") {
            if text::same_text(value, "even") {
                Ok(FecConfig { layout: FecLayout::Even, ..config })
            } else if text::same_text(value, "staircase") {
                Ok(FecConfig { layout: FecLayout::Staircase, ..config })
            } else {
                Err(quoting("invalid layout: '", value, "', expected 'even' or 'staircase'"))
            }
        } else if text::same_text(key, "arq") {
            if text::same_text(value, "always") {
                Ok(FecConfig { arq: ArqMode::Always, ..config })
            } else if text::same_text(value, "onreq") {
                Ok(FecConfig { arq: ArqMode::OnReq, ..config })
            } else if text::same_text(value, "never") {
                Ok(FecConfig { arq: ArqMode::Never, ..config })
            } else {
                Err(quoting("invalid arq: '", value, "', expected 'always', 'onreq', or 'never'"))
            }
        } else {
            Ok(config)
        }
    }

    /// The packet filter string of this configuration.
    pub fn to_string(&self) -> (t: String)
        ensures
            t@ == formatted(*self),
    {
        let mut t = "fec,cols:".to_owned();
        text::push_decimal(&mut t, self.cols);
        t.append(",rows:");
        text::push_decimal(&mut t, self.rows);
        t.append(",layout:");
        t.append(match self.layout {
            FecLayout::Even => "even",
            FecLayout::Staircase => "staircase",
        });
        t.append(",arq:");
        t.append(match self.arq {
            ArqMode::Always => "always",
            ArqMode::OnReq => "onreq",
            ArqMode::Never => "never",
        });
        t
    }
}

/// Reading back the packet filter string of a configuration gives the
/// configuration, for every matrix that has at least one column and a row count
/// that the notation can hold.
pub proof fn law_filter_string_reads_back(config: FecConfig)
    requires
        config.cols >= 1,
        1 <= config.rows <= i64::MAX,
    ensures
        parsed(formatted(config)) == Ok::<FecConfig, Seq<char>>(config),
{
    lemma_formatted_shape(config);
    lemma_entries_rebuild(config);
    text::lemma_trimmed_is_itself("fec"@);
}

/// The entries of a configuration's packet filter string.
spec fn entries_of(config: FecConfig) -> Seq<Seq<char>> {
    seq![
        "cols"@.push(':') + text::decimal(config.cols as nat),
        "rows"@.push(':') + text::decimal(config.rows as nat),
        "layout"@.push(':') + layout_name(config.layout),
        "arq"@.push(':') + arq_name(config.arq),
    ]
}

/// The parameter list of a configuration's packet filter string.
spec fn list_of(config: FecConfig) -> Seq<char> {
    let entries = entries_of(config);
    entries[0].push(',') + (entries[1].push(',') + (entries[2].push(',') + entries[3]))
}

proof fn lemma_list_shape(config: FecConfig)
    ensures
        text::pieces(list_of(config), ',') == entries_of(config),
{
    text::lemma_decimal_text(config.cols as nat);
    text::lemma_decimal_text(config.rows as nat);
    let entries = entries_of(config);
    lemma_names_hold_no_comma(config);
    lemma_no_comma("cols"@, text::decimal(config.cols as nat));
    lemma_no_comma("rows"@, text::decimal(config.rows as nat));
    lemma_no_comma("layout"@, layout_name(config.layout));
    lemma_no_comma("arq"@, arq_name(config.arq));
    let last = entries[2].push(',') + entries[3];
    text::lemma_pieces_of_push(entries[0], entries[1].push(',') + last, ',');
    text::lemma_pieces_of_push(entries[1], last, ',');
    text::lemma_pieces_of_push(entries[2], entries[3], ',');
    text::lemma_pieces_of_one(entries[3], ',');
    assert(text::pieces(list_of(config), ',') =~= entries);
}

proof fn lemma_names_hold_no_comma(config: FecConfig)
    ensures
        !"cols"@.contains(','),
        !"rows"@.contains(','),
        !"layout"@.contains(','),
        !"arq"@.contains(','),
        !layout_name(config.layout).contains(','),
        !arq_name(config.arq).contains(','),
{
    reveal_literals();
}

/// How a configuration's packet filter string is made up.
proof fn lemma_formatted_parts(config: FecConfig)
    ensures
        formatted(config) == "fec"@.push(',') + list_of(config),
{
    reveal_literals();
    let cols = text::decimal(config.cols as nat);
    let rows = text::decimal(config.rows as nat);
    let layout = layout_name(config.layout);
    let arq = arq_name(config.arq);
    assert("fec,cols:"@ =~= "fec"@.push(',') + "cols"@.push(':'));
    assert(",rows:"@ =~= seq![','] + "rows"@.push(':'));
    assert(",layout:"@ =~= seq![','] + "layout"@.push(':'));
    assert(",arq:"@ =~= seq![','] + "arq"@.push(':'));
    lemma_regroup(
        "fec"@.push(','),
        "cols"@.push(':'),
        cols,
        "rows"@.push(':'),
        rows,
        "layout"@.push(':'),
        layout,
        "arq"@.push(':'),
        arq,
    );
}

/// Texts in a row are the same text, however they are put together.
proof fn lemma_regroup(
    front: Seq<char>,
    a: Seq<char>,
    b: Seq<char>,
    c: Seq<char>,
    d: Seq<char>,
    e: Seq<char>,
    f: Seq<char>,
    g: Seq<char>,
    h: Seq<char>,
)
    ensures
        (front + a) + b + (seq![','] + c) + d + (seq![','] + e) + f + (seq![','] + g) + h == front
            + ((a + b).push(',') + ((c + d).push(',') + ((e + f).push(',') + (g + h)))),
{
    assert((front + a) + b + (seq![','] + c) + d + (seq![','] + e) + f + (seq![','] + g) + h
        =~= front + ((a + b).push(',') + ((c + d).push(',') + ((e + f).push(',') + (g + h)))));
}

proof fn lemma_formatted_shape(config: FecConfig)
    ensures
        text::trimmed(formatted(config)) == formatted(config),
        formatted(config).len() > 4,
        text::first_index(formatted(config), ',') == 3,
        formatted(config).take(3) == "fec"@,
        text::is_trimmed("fec"@),
        text::pieces(formatted(config).skip(4), ',') == entries_of(config),
{
    reveal_literals();
    lemma_formatted_parts(config);
    lemma_list_shape(config);
    let whole = formatted(config);
    let list = list_of(config);
    assert(whole[0] == 'f');
    assert(whole[1] == 'e');
    assert(whole[2] == 'c');
    assert(whole[3] == ',');
    let arq = arq_name(config.arq);
    assert(list.last() == arq.last());
    assert(whole.last() == arq.last());
    assert(text::is_trimmed(whole));
    text::lemma_trimmed_is_itself(whole);
    text::lemma_first_index_is(whole, ',', 3);
    assert(whole.take(3) =~= "fec"@);
    assert(whole.skip(4) =~= list);
}

proof fn lemma_no_comma(key: Seq<char>, value: Seq<char>)
    requires
        !key.contains(','),
        !value.contains(','),
    ensures
        !(key.push(':') + value).contains(','),
{
    let entry = key.push(':') + value;
    assert forall|i: int| 0 <= i < entry.len() implies entry[i] != ',' by {
        if i < key.len() {
            assert(key.contains(key[i]));
        } else if i > key.len() {
            assert(value.contains(value[i - key.len() - 1]));
        }
    }
}

proof fn lemma_entries_rebuild(config: FecConfig)
    requires
        config.cols >= 1,
        1 <= config.rows <= i64::MAX,
    ensures
        with_entries(default_config(), entries_of(config)) == Ok::<FecConfig, Seq<char>>(config),
{
    reveal_literals();
    let c0 = default_config();
    let c1 = FecConfig { cols: config.cols, ..c0 };
    let c2 = FecConfig { rows: config.rows, ..c1 };
    let c3 = FecConfig { layout: config.layout, ..c2 };
    let entries = entries_of(config);
    assert(with_entry(c0, entries[0]) == Ok::<FecConfig, Seq<char>>(c1)) by {
        text::lemma_decimal_text(config.cols as nat);
        lemma_entry(c0, "cols"@, text::decimal(config.cols as nat));
    }
    assert(with_entry(c1, entries[1]) == Ok::<FecConfig, Seq<char>>(c2)) by {
        text::lemma_decimal_text(config.rows as nat);
        lemma_entry(c1, "rows"@, text::decimal(config.rows as nat));
        assert("rows"@ != "cols"@);
    }
    assert(with_entry(c2, entries[2]) == Ok::<FecConfig, Seq<char>>(c3)) by {
        lemma_entry(c2, "layout"@, layout_name(config.layout));
        assert("layout"@.len() == 6);
        assert("staircase"@.len() != "even"@.len());
    }
    assert(with_entry(c3, entries[3]) == Ok::<FecConfig, Seq<char>>(config)) by {
        lemma_entry(c3, "arq"@, arq_name(config.arq));
        assert("arq"@.len() == 3);
        assert("onreq"@[0] == 'o' && "never"@[0] == 'n' && "always"@[0] == 'a');
    }
    let e1 = entries.drop_first();
    let e2 = e1.drop_first();
    let e3 = e2.drop_first();
    assert(with_entries(config, e3.drop_first()) == Ok::<FecConfig, Seq<char>>(config));
    assert(with_entries(c3, e3) == Ok::<FecConfig, Seq<char>>(config));
    assert(with_entries(c2, e2) == Ok::<FecConfig, Seq<char>>(config));
    assert(with_entries(c1, e1) == Ok::<FecConfig, Seq<char>>(config));
}

/// An entry `key:value` with nothing to trim is a parameter with that key and value.
proof fn lemma_entry(config: FecConfig, key: Seq<char>, value: Seq<char>)
    requires
        key.len() > 0,
        text::is_trimmed(key),
        text::is_trimmed(value),
        value.len() > 0,
        !key.contains(':'),
    ensures
        with_entry(config, key.push(':') + value) == with_parameter(config, key, value),
{
    let entry = key.push(':') + value;
    text::lemma_trimmed_is_itself(entry);
    text::lemma_trimmed_is_itself(key);
    text::lemma_trimmed_is_itself(value);
    assert forall|i: int| 0 <= i < key.len() implies #[trigger] entry[i] != ':' by {
        assert(entry[i] == key[i]);
        assert(key.contains(key[i]));
    }
    text::lemma_first_index_is(entry, ':', key.len() as int);
    assert(entry.take(key.len() as int) =~= key);
    assert(entry.skip(key.len() as int + 1) =~= value);
}

/// Whether a key is one of those that a packet filter string can set.
pub open spec fn is_known_key(key: Seq<char>) -> bool {
    key == "cols"@ || key == "rows"@ || key == "layout"@ || key == "arq"@
}

/// The keys that are not known do not matter: an entry with one of them, behind a
/// string that stands for a configuration, leaves the configuration as it is.
pub proof fn law_unknown_keys_are_ignored(
    s: Seq<char>,
    config: FecConfig,
    key: Seq<char>,
    value: Seq<char>,
)
    requires
        parsed(s) == Ok::<FecConfig, Seq<char>>(config),
        !key.contains(','),
        !key.contains(':'),
        !value.contains(','),
        !is_known_key(text::trimmed(key)),
    ensures
        parsed(s.push(',') + (key.push(':') + value)) == Ok::<FecConfig, Seq<char>>(config),
{
    text::lemma_first_index(text::trimmed(s), ',');
    assert(is_filter(s));
    assert forall|i: int| 0 <= i < (key.push(':') + value).len() implies (key.push(':')
        + value)[i] != ',' by {
        lemma_no_comma(key, value);
        assert((key.push(':') + value).contains((key.push(':') + value)[i]));
    }
    lemma_entry_behind(s, key.push(':') + value);
    lemma_any_entry(config, key, value);
}

/// Whether a string names the filter of this module.
pub open spec fn is_filter(s: Seq<char>) -> bool {
    let filter = text::trimmed(s);
    filter.len() > 0 && text::trimmed(filter.take(text::first_index(filter, ','))) == "fec"@
}

/// An entry behind a packet filter string is read after all that stands before it.
pub proof fn lemma_entry_behind(s: Seq<char>, entry: Seq<char>)
    requires
        is_filter(s),
        !entry.contains(','),
    ensures
        parsed(s.push(',') + entry) == (match parsed(s) {
            Ok(config) => with_entry(config, entry),
            Err(complaint) => Err(complaint),
        }),
{
    reveal_literals();
    let start = text::trimmed_start(s);
    let filter = text::trimmed(s);
    let kept = text::trimmed_end(entry);
    text::lemma_trimmed_end_splits(start);
    let blank = start.skip(filter.len() as int);
    assert(start =~= filter + blank);
    lemma_longer_filter(s, entry);
    let longer = start.push(',') + kept;
    assert(!blank.contains(',')) by {
        assert forall|i: int| 0 <= i < blank.len() implies blank[i] != ',' by {
            assert(text::is_space(blank[i]));
        }
    }
    text::lemma_trimmed_end_splits(entry);
    assert(!kept.contains(',')) by {
        assert forall|c: char| kept.contains(c) implies entry.contains(c) by {
            let i = choose|i: int| 0 <= i < kept.len() && kept[i] == c;
            assert(entry[i] == entry.take(kept.len() as int)[i]);
        }
    }
    assert(entry =~= kept + entry.skip(kept.len() as int));
    text::lemma_trimmed_drops_blank(kept, entry.skip(kept.len() as int));
    let one = seq![kept];
    assert forall|c: FecConfig| #[trigger] with_entries(c, one) == with_entry(c, entry) by {
        assert(with_entry(c, kept) == with_entry(c, entry));
        assert(one[0] == kept);
        assert(one.drop_first().len() == 0);
        match with_entry(c, kept) {
            Ok(next) => {
                assert(with_entries(next, one.drop_first()) == Ok::<FecConfig, Seq<char>>(next));
            },
            Err(_) => {},
        }
    }
    text::lemma_first_index(filter, ',');
    let comma = text::first_index(filter, ',');
    if comma < filter.len() {
        assert forall|i: int| 0 <= i < comma implies #[trigger] longer[i] != ',' by {
            assert(longer[i] == filter[i]);
        }
        assert(longer[comma] == filter[comma]);
        text::lemma_first_index_is(longer, ',', comma);
        assert(longer.take(comma) =~= filter.take(comma));
        let list = filter.skip(comma + 1);
        let padded = list + blank;
        assert(longer.skip(comma + 1) =~= padded.push(',') + kept);
        text::lemma_pieces_of_both(padded, kept, ',');
        text::lemma_pieces_of_one(kept, ',');
        text::lemma_last_piece_grows(list, blank, ',');
        let entries = text::pieces(list, ',');
        let last = entries.last();
        let changed = entries.drop_last().push(last + blank);
        text::lemma_trimmed_drops_blank(last, blank);
        lemma_entries_of_both(default_config(), entries.drop_last(), seq![last]);
        lemma_entries_of_both(default_config(), entries.drop_last(), seq![last + blank]);
        assert(entries =~= entries.drop_last() + seq![last]);
        assert(changed =~= entries.drop_last() + seq![last + blank]);
        assert forall|c: FecConfig| with_entries(c, seq![last]) == #[trigger] with_entries(
            c,
            seq![last + blank],
        ) by {
            assert(with_entry(c, last) == with_entry(c, last + blank));
            assert(seq![last].drop_first() =~= seq![last + blank].drop_first());
            assert(seq![last][0] == last);
            assert(seq![last + blank][0] == last + blank);
        }
        assert(with_entries(default_config(), changed) == parsed(s));
        lemma_entries_of_both(default_config(), changed, one);
        assert(text::pieces(longer.skip(comma + 1), ',') =~= changed + one);
    } else {
        let at = start.len() as int;
        assert forall|i: int| 0 <= i < at implies #[trigger] longer[i] != ',' by {
            if i < filter.len() {
                assert(longer[i] == filter[i]);
            } else {
                assert(longer[i] == blank[i - filter.len()]);
                assert(blank.contains(blank[i - filter.len()]));
            }
        }
        text::lemma_first_index_is(longer, ',', at);
        assert(filter.take(comma) =~= filter);
        assert(longer.take(at) =~= filter + blank);
        text::lemma_trimmed_drops_blank(filter, blank);
        assert(longer.skip(at + 1) =~= kept);
        text::lemma_pieces_of_one(kept, ',');
        assert(parsed(s) == Ok::<FecConfig, Seq<char>>(default_config()));
    }
}

/// What is left of a filter string with an entry behind it when it is trimmed.
proof fn lemma_longer_filter(s: Seq<char>, entry: Seq<char>)
    requires
        text::trimmed(s).len() > 0,
    ensures
        text::trimmed(s.push(',') + entry) == text::trimmed_start(s).push(',')
            + text::trimmed_end(entry),
{
    let start = text::trimmed_start(s);
    let tail = seq![','] + entry;
    assert(start.len() > 0);
    text::lemma_trimmed_start_of_both(s, tail);
    assert(s.push(',') + entry =~= s + tail);
    let front = start.push(',');
    assert(start + tail =~= front + entry);
    assert(front.last() == ',');
    text::lemma_trimmed_end_of_both(front, entry);
}

/// An entry with a colon is a parameter: the key stands before the first colon and the
/// value behind it, and white space around both does not count.
pub proof fn lemma_any_entry(config: FecConfig, key: Seq<char>, value: Seq<char>)
    requires
        !key.contains(':'),
    ensures
        with_entry(config, key.push(':') + value) == with_parameter(
            config,
            text::trimmed(key),
            text::trimmed(value),
        ),
{
    let entry = key.push(':') + value;
    let front = text::trimmed_start(key);
    let tail = seq![':'] + value;
    assert(entry =~= key + tail);
    text::lemma_trimmed_start_of_both(key, tail);
    let head = front.push(':');
    assert(text::trimmed_start(entry) =~= head + value);
    assert(head.last() == ':');
    text::lemma_trimmed_end_of_both(head, value);
    let param = text::trimmed(entry);
    let kept = text::trimmed_end(value);
    assert(param == head + kept);
    assert forall|i: int| 0 <= i < front.len() implies #[trigger] param[i] != ':' by {
        assert(param[i] == front[i]);
        text::lemma_trimmed_start_keeps(key);
        assert(front.contains(front[i]));
    }
    text::lemma_first_index_is(param, ':', front.len() as int);
    assert(param.take(front.len() as int) =~= front);
    assert(param.skip(front.len() as int + 1) =~= kept);
    text::lemma_trimmed_start_keeps(key);
    assert(text::trimmed(front) == text::trimmed(key));
    text::lemma_trimmed_end_splits(value);
    assert(value =~= kept + value.skip(kept.len() as int));
    text::lemma_trimmed_drops_blank(kept, value.skip(kept.len() as int));
}

/// Entries in a row are read one part after the other.
proof fn lemma_entries_of_both(config: FecConfig, a: Seq<Seq<char>>, b: Seq<Seq<char>>)
    ensures
        with_entries(config, a + b) == (match with_entries(config, a) {
            Ok(next) => with_entries(next, b),
            Err(complaint) => Err(complaint),
        }),
    decreases a.len(),
{
    if a.len() == 0 {
        assert(a + b =~= b);
    } else {
        assert((a + b)[0] == a[0]);
        assert((a + b).drop_first() =~= a.drop_first() + b);
        match with_entry(config, a[0]) {
            Ok(next) => {
                lemma_entries_of_both(next, a.drop_first(), b);
            },
            Err(_) => {},
        }
    }
}

proof fn reveal_literals()
    ensures
        "fec"@ =~= seq!['f', 'e', 'c'],
        "fec,cols:"@ =~= seq!['f', 'e', 'c', ',', 'c', 'o', 'l', 's', ':'],
        "cols"@ =~= seq!['c', 'o', 'l', 's'],
        ",rows:"@ =~= seq![',', 'r', 'o', 'w', 's', ':'],
        "rows"@ =~= seq!['r', 'o', 'w', 's'],
        ",layout:"@ =~= seq![',', 'l', 'a', 'y', 'o', 'u', 't', ':'],
        "layout"@ =~= seq!['l', 'a', 'y', 'o', 'u', 't'],
        ",arq:"@ =~= seq![',', 'a', 'r', 'q', ':'],
        "arq"@ =~= seq!['a', 'r', 'q'],
        "even"@ =~= seq!['e', 'v', 'e', 'n'],
        "staircase"@ =~= seq!['s', 't', 'a', 'i', 'r', 'c', 'a', 's', 'e'],
        "always"@ =~= seq!['a', 'l', 'w', 'a', 'y', 's'],
        "onreq"@ =~= seq!['o', 'n', 'r', 'e', 'q'],
        "never"@ =~= seq!['n', 'e', 'v', 'e', 'r'],
{
    reveal_strlit("fec");
    reveal_strlit("fec,cols:");
    reveal_strlit("cols");
    reveal_strlit(",rows:");
    reveal_strlit("rows");
    reveal_strlit(",layout:");
    reveal_strlit("layout");
    reveal_strlit(",arq:");
    reveal_strlit("arq");
    reveal_strlit("even");
    reveal_strlit("staircase");
    reveal_strlit("always");
    reveal_strlit("onreq");
    reveal_strlit("never");
}

} // verus!
