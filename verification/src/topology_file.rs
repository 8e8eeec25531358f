//! The topology file: a YAML document with the switchboard's id and the
//! guards, each with its miners. What the document holds is taken as it
//! stands; `config` judges it.
//!
//! The YAML reader descends once for every collection that lies within
//! another. A block collection starts at a column further right than the
//! one around it, save for a sequence that is a mapping's value, and a
//! flow collection starts with a bracket or a brace. So a text is read
//! only if none of its characters stands beyond `MAX_COLUMN` and it has no
//! more than `MAX_BRACKETS` opening brackets and braces: the reader then
//! descends a few hundred times at most. The reader also copies a node
//! wherever an alias names it, so that a short text can stand for a very
//! large document; a text with an asterisk, without which no alias can be
//! written, is not read.

use vstd::prelude::*;
use yaml_rust::YamlLoader;
use crate::config::{build_system, RawGuard, RawMiner, RawTopology};
use crate::system::{Contract, MqttConfig, System};
use crate::text::chars_of;

verus! {

/// The longest text that is read, in characters.
pub const MAX_TEXT: usize = 65_536;

/// The rightmost column at which a character may stand, counted from 0.
pub const MAX_COLUMN: usize = 100;

/// The most opening brackets and braces that a text may have.
pub const MAX_BRACKETS: usize = 16;

/// The column of the character at position `i` of `s`: the number of
/// characters between it and the line feed before it.
pub open spec fn column(s: Seq<char>, i: int) -> int
    decreases i,
{
    if i <= 0 {
        0
    } else if s[i - 1] == '\n' {
        0
    } else {
        column(s, i - 1) + 1
    }
}

/// The number of opening brackets and braces among the first `i`
/// characters of `s`.
pub open spec fn brackets(s: Seq<char>, i: int) -> int
    decreases i,
{
    if i <= 0 {
        0
    } else {
        brackets(s, i - 1) + if s[i - 1] == '[' || s[i - 1] == '{' {
            1int
        } else {
            0int
        }
    }
}

/// The text is one that is read: it is not too long, none of its
/// characters stands beyond `MAX_COLUMN`, it has no more than
/// `MAX_BRACKETS` opening brackets and braces, and no asterisk.
pub open spec fn readable(s: Seq<char>) -> bool {
    &&& s.len() <= MAX_TEXT
    &&& forall|i: int| 0 <= i < s.len() ==> #[trigger] column(s, i) <= MAX_COLUMN
    &&& brackets(s, s.len() as int) <= MAX_BRACKETS
    &&& forall|i: int| 0 <= i < s.len() ==> #[trigger] s[i] != '*'
}

/// More characters hold no fewer brackets.
pub proof fn brackets_grow(s: Seq<char>, i: int, j: int)
    requires
        0 <= i <= j,
    ensures
        0 <= brackets(s, i) <= brackets(s, j),
    decreases j,
{
    if i < j {
        brackets_grow(s, i, j - 1);
    } else if i > 0 {
        brackets_grow(s, i - 1, i - 1);
    }
}

/// Tells whether a text is one that is read.
pub fn is_readable(content: &str) -> (r: bool)
    ensures
        r == readable(content@),
{
    let chars = chars_of(content);
    if chars.len() > MAX_TEXT {
        return false;
    }
    let mut col: usize = 0;
    let mut open: usize = 0;
    let mut i: usize = 0;
    while i < chars.len()
        invariant
            i <= chars.len() <= MAX_TEXT,
            chars@ == content@,
            col == column(content@, i as int),
            col <= i,
            open == brackets(content@, i as int),
            open <= MAX_BRACKETS,
            forall|j: int| 0 <= j < i ==> #[trigger] column(content@, j) <= MAX_COLUMN,
            forall|j: int| 0 <= j < i ==> #[trigger] content@[j] != '*',
        decreases chars.len() - i,
    {
        if col > MAX_COLUMN {
            return false;
        }
        let c = chars[i];
        if c == '*' {
            return false;
        }
        if c == '[' || c == '{' {
            open = open + 1;
            if open > MAX_BRACKETS {
                proof {
                    brackets_grow(content@, i + 1, content@.len() as int);
                }
                return false;
            }
        }
        if c == '\n' {
            col = 0;
        } else {
            col = col + 1;
        }
        i = i + 1;
    }
    true
}

/// The text under `key`, `field` in document `doc` of the YAML text
/// `content`, where there is one.
pub uninterp spec fn yaml_text_of(
    content: Seq<char>,
    doc: usize,
    key: Seq<char>,
    field: Seq<char>,
) -> Option<Seq<char>>;

/// The number of members of the array under `key` in document `doc`,
/// where there is one.
pub uninterp spec fn yaml_len_of(content: Seq<char>, doc: usize, key: Seq<char>) -> Option<usize>;

/// The number of members of the array under `field` in member `i` of the
/// array under `key`.
pub uninterp spec fn yaml_member_len_of(
    content: Seq<char>,
    doc: usize,
    key: Seq<char>,
    i: usize,
    field: Seq<char>,
) -> Option<usize>;

/// The text under `field` in member `i` of the array under `key`.
pub uninterp spec fn yaml_member_text_of(
    content: Seq<char>,
    doc: usize,
    key: Seq<char>,
    i: usize,
    field: Seq<char>,
) -> Option<Seq<char>>;

/// The text under `field` in member `j` of the array under `list` in
/// member `i` of the array under `key`.
pub uninterp spec fn yaml_item_text_of(
    content: Seq<char>,
    doc: usize,
    key: Seq<char>,
    i: usize,
    list: Seq<char>,
    j: usize,
    field: Seq<char>,
) -> Option<Seq<char>>;

/// The whole number under `field` in member `j` of the array under `list`
/// in member `i` of the array under `key`.
pub uninterp spec fn yaml_item_int_of(
    content: Seq<char>,
    doc: usize,
    key: Seq<char>,
    i: usize,
    list: Seq<char>,
    j: usize,
    field: Seq<char>,
) -> Option<i64>;

/// `yaml_rust`'s `YamlLoader::load_from_str`, then document `doc` indexed
/// by `key` and `field`, and `Yaml::as_str`: a function of its arguments
/// alone. `None` where the text is no YAML, has no such document, or has
/// no text there. The text is readable, so that the loader, which descends
/// once for every collection within another and copies a node for every
/// alias, neither descends far nor copies anything.
#[verifier::external_body]
fn yaml_text(content: &str, doc: usize, key: &str, field: &str) -> (r: Option<String>)
    requires
        readable(content@),
    ensures
        match r {
            Some(t) => yaml_text_of(content@, doc, key@, field@) == Some(t@),
            None => yaml_text_of(content@, doc, key@, field@) is None,
        },
{
    match YamlLoader::load_from_str(content) {
        Ok(docs) => match docs.get(doc) {
            Some(d) => d[key][field].as_str().map(String::from),
            None => None,
        },
        Err(_) => None,
    }
}

/// `YamlLoader::load_from_str`, then document `doc` indexed by `key`, and
/// the length of what `Yaml::as_vec` gives.
#[verifier::external_body]
fn yaml_len(content: &str, doc: usize, key: &str) -> (r: Option<usize>)
    requires
        readable(content@),
    ensures
        r == yaml_len_of(content@, doc, key@),
{
    match YamlLoader::load_from_str(content) {
        Ok(docs) => match docs.get(doc) {
            Some(d) => d[key].as_vec().map(Vec::len),
            None => None,
        },
        Err(_) => None,
    }
}

/// `YamlLoader::load_from_str`, then document `doc` indexed by `key`, `i`
/// and `field`, and the length of what `Yaml::as_vec` gives.
#[verifier::external_body]
fn yaml_member_len(content: &str, doc: usize, key: &str, i: usize, field: &str) -> (r: Option<usize>)
    requires
        readable(content@),
    ensures
        r == yaml_member_len_of(content@, doc, key@, i, field@),
{
    match YamlLoader::load_from_str(content) {
        Ok(docs) => match docs.get(doc) {
            Some(d) => d[key][i][field].as_vec().map(Vec::len),
            None => None,
        },
        Err(_) => None,
    }
}

/// `YamlLoader::load_from_str`, then document `doc` indexed by `key`, `i`
/// and `field`, and `Yaml::as_str`.
#[verifier::external_body]
fn yaml_member_text(content: &str, doc: usize, key: &str, i: usize, field: &str) -> (r: Option<String>)
    requires
        readable(content@),
    ensures
        match r {
            Some(t) => yaml_member_text_of(content@, doc, key@, i, field@) == Some(t@),
            None => yaml_member_text_of(content@, doc, key@, i, field@) is None,
        },
{
    match YamlLoader::load_from_str(content) {
        Ok(docs) => match docs.get(doc) {
            Some(d) => d[key][i][field].as_str().map(String::from),
            None => None,
        },
        Err(_) => None,
    }
}

/// `YamlLoader::load_from_str`, then document `doc` indexed by `key`, `i`,
/// `list`, `j` and `field`, and `Yaml::as_str`.
#[verifier::external_body]
fn yaml_item_text(
    content: &str,
    doc: usize,
    key: &str,
    i: usize,
    list: &str,
    j: usize,
    field: &str,
) -> (r: Option<String>)
    requires
        readable(content@),
    ensures
        match r {
            Some(t) => yaml_item_text_of(content@, doc, key@, i, list@, j, field@) == Some(t@),
            None => yaml_item_text_of(content@, doc, key@, i, list@, j, field@) is None,
        },
{
    match YamlLoader::load_from_str(content) {
        Ok(docs) => match docs.get(doc) {
            Some(d) => d[key][i][list][j][field].as_str().map(String::from),
            None => None,
        },
        Err(_) => None,
    }
}

/// `YamlLoader::load_from_str`, then document `doc` indexed by `key`, `i`,
/// `list`, `j` and `field`, and `Yaml::as_i64`.
#[verifier::external_body]
fn yaml_item_int(
    content: &str,
    doc: usize,
    key: &str,
    i: usize,
    list: &str,
    j: usize,
    field: &str,
) -> (r: Option<i64>)
    requires
        readable(content@),
    ensures
        r == yaml_item_int_of(content@, doc, key@, i, list@, j, field@),
{
    match YamlLoader::load_from_str(content) {
        Ok(docs) => match docs.get(doc) {
            Some(d) => d[key][i][list][j][field].as_i64(),
            None => None,
        },
        Err(_) => None,
    }
}

/// The text under `field` of the guard at position `g` of the topology:
/// the guards are the array under `guards` in the first document.
pub open spec fn guard_text(content: Seq<char>, g: usize, field: Seq<char>) -> Option<Seq<char>> {
    yaml_member_text_of(content, 0, "guards"@, g, field)
}

/// The number of miners that the guard at position `g` lists under `miners`.
pub open spec fn listed_miners(content: Seq<char>, g: usize) -> Option<usize> {
    yaml_member_len_of(content, 0, "guards"@, g, "miners"@)
}

/// The text under `field` of the miner at position `m` of the guard at
/// position `g`.
pub open spec fn miner_text(content: Seq<char>, g: usize, m: usize, field: Seq<char>) -> Option<
    Seq<char>,
> {
    yaml_item_text_of(content, 0, "guards"@, g, "miners"@, m, field)
}

/// The whole number under `field` of the miner at position `m` of the
/// guard at position `g`.
pub open spec fn miner_int(content: Seq<char>, g: usize, m: usize, field: Seq<char>) -> Option<i64> {
    yaml_item_int_of(content, 0, "guards"@, g, "miners"@, m, field)
}

/// The text `t` is what the document holds at a place, `held`.
pub open spec fn same_text_held(t: Option<String>, held: Option<Seq<char>>) -> bool {
    match t {
        Some(t) => held == Some(t@),
        None => held is None,
    }
}

/// The guard is the one at position `g` of the document.
pub open spec fn guard_reads(raw: RawGuard, content: Seq<char>, g: usize) -> bool {
    &&& same_text_held(raw.id, guard_text(content, g, "id"@))
    &&& same_text_held(raw.board_type, guard_text(content, g, "type"@))
    &&& raw.has_miners == listed_miners(content, g) is Some
}

/// The miner is the one at position `m` of the guard at position `g` of
/// the document.
pub open spec fn miner_reads(raw: RawMiner, content: Seq<char>, g: usize, m: usize) -> bool {
    &&& raw.guard == g
    &&& same_text_held(raw.id, miner_text(content, g, m, "id"@))
    &&& raw.pinset == miner_int(content, g, m, "pinset"@)
    &&& same_text_held(raw.plug, miner_text(content, g, m, "plug"@))
    &&& raw.phase == miner_int(content, g, m, "phase"@)
    &&& raw.consumption == miner_int(content, g, m, "consumption"@)
}

/// How many miners the guard at position `g` of the document has.
pub open spec fn miners_of_guard(content: Seq<char>, g: usize) -> nat {
    match listed_miners(content, g) {
        Some(n) => n as nat,
        None => 0,
    }
}

/// How many miners the first `k` guards of the document have together.
pub open spec fn miners_before(content: Seq<char>, k: nat) -> nat
    decreases k,
{
    if k == 0 {
        0
    } else {
        miners_before(content, (k - 1) as nat) + miners_of_guard(content, (k - 1) as usize)
    }
}

/// The topology is what the first document of the text holds: the
/// switchboard's id under `switchboard`, `id`; the guards under `guards`,
/// in their order; and their miners, guard after guard, each guard's
/// miners under `miners` in their order.
pub open spec fn topology_reads(raw: RawTopology, content: Seq<char>) -> bool {
    &&& same_text_held(raw.switchboard_id, yaml_text_of(content, 0, "switchboard"@, "id"@))
    &&& match raw.guards {
        Some(guards) => {
            &&& yaml_len_of(content, 0, "guards"@) == Some(guards@.len() as usize)
            &&& forall|g: int|
                0 <= g < guards@.len() ==> guard_reads(#[trigger] guards@[g], content, g as usize)
            &&& raw.miners@.len() == miners_before(content, guards@.len())
            &&& forall|g: int, m: int|
                0 <= g < guards@.len() && 0 <= m < miners_of_guard(content, g as usize)
                    ==> miner_reads(
                    #[trigger] raw.miners@[miners_before(content, g as nat) + m],
                    content,
                    g as usize,
                    m as usize,
                )
        },
        None => yaml_len_of(content, 0, "guards"@) is None && raw.miners@.len() == 0,
    }
}

/// The miners of more guards are no fewer.
pub proof fn miners_before_grows(content: Seq<char>, a: nat, b: nat)
    requires
        a <= b,
    ensures
        miners_before(content, a) <= miners_before(content, b),
    decreases b - a,
{
    if a < b {
        miners_before_grows(content, a, (b - 1) as nat);
    }
}

/// Reads the topology that a YAML text holds.
pub fn read_topology(content: &str) -> (raw: RawTopology)
    requires
        readable(content@),
    ensures
        topology_reads(raw, content@),
{
    let switchboard_id = yaml_text(content, 0, "switchboard", "id");
    let count = match yaml_len(content, 0, "guards") {
        Some(n) => n,
        None => {
            return RawTopology { switchboard_id, guards: None, miners: Vec::new() };
        },
    };
    let mut guards: Vec<RawGuard> = Vec::new();
    let mut miners: Vec<RawMiner> = Vec::new();
    let mut g: usize = 0;
    while g < count
        invariant
            g <= count,
            readable(content@),
            guards@.len() == g,
            forall|k: int| 0 <= k < g ==> guard_reads(#[trigger] guards@[k], content@, k as usize),
            miners@.len() == miners_before(content@, g as nat),
            forall|k: int, m: int|
                0 <= k < g && 0 <= m < miners_of_guard(content@, k as usize) ==> miner_reads(
                    #[trigger] miners@[miners_before(content@, k as nat) + m],
                    content@,
                    k as usize,
                    m as usize,
                ),
        decreases count - g,
    {
        let id = yaml_member_text(content, 0, "guards", g, "id");
        let board_type = yaml_member_text(content, 0, "guards", g, "type");
        let listed = yaml_member_len(content, 0, "guards", g, "miners");
        let n: usize = match listed {
            Some(n) => n,
            None => 0,
        };
        let ghost base = miners@.len();
        let ghost before = miners@;
        let mut m: usize = 0;
        while m < n
            invariant
                m <= n,
                readable(content@),
                n == miners_of_guard(content@, g),
                base == miners_before(content@, g as nat),
                miners@.len() == base + m,
                miners@.take(base as int) == before,
                forall|j: int|
                    0 <= j < m ==> miner_reads(#[trigger] miners@[base + j], content@, g, j as usize),
            decreases n - m,
        {
            miners.push(
                RawMiner {
                    guard: g,
                    id: yaml_item_text(content, 0, "guards", g, "miners", m, "id"),
                    pinset: yaml_item_int(content, 0, "guards", g, "miners", m, "pinset"),
                    plug: yaml_item_text(content, 0, "guards", g, "miners", m, "plug"),
                    phase: yaml_item_int(content, 0, "guards", g, "miners", m, "phase"),
                    consumption: yaml_item_int(content, 0, "guards", g, "miners", m, "consumption"),
                },
            );
            assert(miners@.take(base as int) =~= before);
            m = m + 1;
        }
        guards.push(RawGuard { id, board_type, has_miners: listed.is_some() });
        assert forall|k: int, j: int|
            0 <= k < g + 1 && 0 <= j < miners_of_guard(content@, k as usize) implies miner_reads(
            #[trigger] miners@[miners_before(content@, k as nat) + j],
            content@,
            k as usize,
            j as usize,
        ) by {
            if k < g {
                miners_before_grows(content@, (k + 1) as nat, g as nat);
                assert(miners@[miners_before(content@, k as nat) + j] == before[miners_before(
                    content@,
                    k as nat,
                ) + j]);
            }
        }
        g = g + 1;
    }
    RawTopology { switchboard_id, guards: Some(guards), miners }
}

/// Makes the system that a YAML text describes, as it starts at `now`;
/// `None` where the text is not one that is read, and where what it holds
/// is not accepted as a topology.
pub fn parse_yaml(content: &str, contract: Contract, mqtt_config: MqttConfig, now: i64) -> (r: Option<
    System,
>)
    ensures
        !readable(content@) ==> r is None,
        readable(content@) ==> exists|raw: RawTopology|
            {
                &&& topology_reads(raw, content@)
                &&& r is Some <==> raw.accepted()
                &&& r is Some ==> r->0@ == raw.devices(contract, mqtt_config, now) && r->0.wf()
                    && r->0@.topology_valid()
            },
{
    if !is_readable(content) {
        return None;
    }
    let raw = read_topology(content);
    build_system(&raw, contract, mqtt_config, now)
}

} // verus!
