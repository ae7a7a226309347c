//! The routing tables: which extension a number rings, and which trunk an
//! extension calls out on.

use crate::extension::{
    extension_text, extension_value, is_extension_text, lemma_extension_text_of_value, Extension,
};
use crate::number::{is_canonical, NationalNumber};
use crate::text::same_text;
use vstd::prelude::*;

verus! {

/// `phf::Map`, the perfect-hash map that holds each table. Its inside is
/// not visible here; [`table_entries`] stands for what it holds.
#[verifier::external_type_specification]
#[verifier::external_body]
#[verifier::reject_recursive_types(K)]
#[verifier::reject_recursive_types(V)]
pub struct ExPhfMap<K: 'static, V: 'static>(phf::Map<K, V>);

/// What a table holds: the text stored under each key.
pub uninterp spec fn table_entries(table: phf::Map<&'static str, &'static str>) -> Map<
    Seq<char>,
    Seq<char>,
>;

/// The keys and values of `entries` as plain text.
pub open spec fn entry_texts(entries: Seq<(&'static str, &'static str)>) -> Seq<
    (Seq<char>, Seq<char>),
> {
    entries.map_values(|e: (&'static str, &'static str)| (e.0@, e.1@))
}

/// Whether no key occurs twice among `pairs`.
pub open spec fn distinct_keys(pairs: Seq<(Seq<char>, Seq<char>)>) -> bool {
    forall|i: int, j: int| 0 <= i < j < pairs.len() ==> (#[trigger] pairs[i]).0 != (#[trigger] pairs[j]).0
}

/// The map that binds each key of `pairs` to the value beside it.
pub open spec fn pairs_map(pairs: Seq<(Seq<char>, Seq<char>)>) -> Map<Seq<char>, Seq<char>>
    decreases pairs.len(),
{
    if pairs.len() == 0 {
        Map::empty()
    } else {
        pairs_map(pairs.drop_last()).insert(pairs.last().0, pairs.last().1)
    }
}

/// `phf::Map::get`: the value stored under `key`, or `None` when the table
/// holds no such key. The key is matched as a whole, never by a prefix.
#[verifier::external_body]
fn table_get(table: &phf::Map<&'static str, &'static str>, key: &str) -> (value: Option<
    &'static str,
>)
    ensures
        match value {
            Some(v) => table_entries(*table).contains_key(key@) && table_entries(*table)[key@]
                == v@,
            None => !table_entries(*table).contains_key(key@),
        },
{
    table.get(key).copied()
}

/// `phf_generator::generate_hash`, and a `phf::Map` laid out by what it
/// returns, as the `phf_map` macro lays one out: the table holds exactly the
/// given entries. The keys must differ from one another, since no perfect
/// hash exists otherwise and the search for one would not end; and there
/// must be no more of them than a `u32` counts, since the search counts in
/// one. The table is kept for as long as the process runs.
#[verifier::external_body]
fn table_build(entries: Vec<(&'static str, &'static str)>) -> (table: phf::Map<
    &'static str,
    &'static str,
>)
    requires
        distinct_keys(entry_texts(entries@)),
        entries@.len() <= u32::MAX,
    ensures
        table_entries(table) == pairs_map(entry_texts(entries@)),
{
    let keys: Vec<&'static str> = entries.iter().map(|e| e.0).collect();
    let state = phf_generator::generate_hash(&keys);
    let placed: Vec<(&'static str, &'static str)> = state.map.iter().map(|&i| entries[i]).collect();
    phf::Map { key: state.key, disps: state.disps.leak(), entries: placed.leak() }
}

/// The number table as the resolver reads it: each key that is a canonical
/// number and stands beside an extension is bound to that extension.
pub open spec fn number_view(texts: Map<Seq<char>, Seq<char>>) -> Map<Seq<char>, int> {
    Map::new(
        |n: Seq<char>| texts.contains_key(n) && is_canonical(n) && is_extension_text(texts[n]),
        |n: Seq<char>| extension_value(texts[n]),
    )
}

/// The trunk table as the resolver reads it: each extension whose three
/// digits are a key beside a canonical number is bound to that number.
pub open spec fn trunk_view(texts: Map<Seq<char>, Seq<char>>) -> Map<int, Seq<char>> {
    Map::new(
        |e: int|
            0 <= e < 1000 && texts.contains_key(extension_text(e)) && is_canonical(
                texts[extension_text(e)],
            ),
        |e: int| texts[extension_text(e)],
    )
}

/// The two routing tables as mathematical maps.
pub struct TablesView {
    /// From a canonical number to the extension that it rings.
    pub numbers: Map<Seq<char>, int>,
    /// From an extension to the trunk that it calls out on.
    pub trunks: Map<int, Seq<char>>,
}

impl TablesView {
    /// The extension that `number` rings, if the table holds that number.
    pub open spec fn lookup_extension(self, number: Seq<char>) -> Option<int> {
        if self.numbers.contains_key(number) {
            Some(self.numbers[number])
        } else {
            None
        }
    }

    /// The trunk of `extension`, if the table holds that extension.
    pub open spec fn lookup_trunk(self, extension: int) -> Option<Seq<char>> {
        if self.trunks.contains_key(extension) {
            Some(self.trunks[extension])
        } else {
            None
        }
    }

    /// Whether every number is canonical and every extension lies below
    /// 1000.
    pub open spec fn well_formed(self) -> bool {
        &&& forall|n: Seq<char>| #[trigger]
            self.numbers.contains_key(n) ==> is_canonical(n) && 0 <= self.numbers[n] < 1000
        &&& forall|e: int| #[trigger]
            self.trunks.contains_key(e) ==> 0 <= e < 1000 && is_canonical(self.trunks[e])
    }
}

/// The tables that the written entries `numbers` and `trunks` make.
pub open spec fn tables_of(
    numbers: Seq<(Seq<char>, Seq<char>)>,
    trunks: Seq<(Seq<char>, Seq<char>)>,
) -> TablesView {
    TablesView { numbers: number_view(pairs_map(numbers)), trunks: trunk_view(pairs_map(trunks)) }
}

/// Whether `pairs` can be written into a number table: no more of them
/// than a `u32` counts, no key twice, each key a canonical number, each
/// value an extension.
pub open spec fn valid_number_entries(pairs: Seq<(Seq<char>, Seq<char>)>) -> bool {
    &&& pairs.len() <= u32::MAX
    &&& distinct_keys(pairs)
    &&& forall|i: int|
        0 <= i < pairs.len() ==> is_canonical((#[trigger] pairs[i]).0) && is_extension_text(
            pairs[i].1,
        )
}

/// Whether `pairs` can be written into a trunk table: no more of them than
/// a `u32` counts, no key twice, each key an extension, each value a
/// canonical number.
pub open spec fn valid_trunk_entries(pairs: Seq<(Seq<char>, Seq<char>)>) -> bool {
    &&& pairs.len() <= u32::MAX
    &&& distinct_keys(pairs)
    &&& forall|i: int|
        0 <= i < pairs.len() ==> is_extension_text((#[trigger] pairs[i]).0) && is_canonical(
            pairs[i].1,
        )
}

/// Where no key occurs twice, the map that `pairs` make binds the key of
/// each pair to the value beside it.
pub proof fn lemma_pairs_map_entry(pairs: Seq<(Seq<char>, Seq<char>)>, i: int)
    requires
        distinct_keys(pairs),
        0 <= i < pairs.len(),
    ensures
        pairs_map(pairs).contains_key(pairs[i].0),
        pairs_map(pairs)[pairs[i].0] == pairs[i].1,
    decreases pairs.len(),
{
    if i < pairs.len() - 1 {
        let front = pairs.drop_last();
        lemma_pairs_map_entry(front, i);
    }
}

/// A lookup reads the tables and the key, and nothing else: asked again
/// with the same key, be it through another copy of it, the same tables
/// give the same answer.
pub proof fn lemma_lookups_are_stable(
    tables: RoutingTables,
    first_number: NationalNumber,
    second_number: NationalNumber,
    first_extension: Extension,
    second_extension: Extension,
)
    requires
        first_number@ == second_number@,
        first_extension@ == second_extension@,
    ensures
        tables@.lookup_extension(first_number@) == tables@.lookup_extension(second_number@),
        tables@.lookup_trunk(first_extension@) == tables@.lookup_trunk(second_extension@),
{
}

/// The two routing tables. They are made once and never change.
pub struct RoutingTables {
    number_to_extension: phf::Map<&'static str, &'static str>,
    extension_to_trunk: phf::Map<&'static str, &'static str>,
}

impl View for RoutingTables {
    type V = TablesView;

    closed spec fn view(&self) -> TablesView {
        TablesView {
            numbers: number_view(table_entries(self.number_to_extension)),
            trunks: trunk_view(table_entries(self.extension_to_trunk)),
        }
    }
}

impl RoutingTables {
    /// Whatever tables are at hand, they are well formed.
    pub proof fn lemma_well_formed(self)
        ensures
            self@.well_formed(),
    {
        let t = self@;
        assert forall|n: Seq<char>| #[trigger] t.numbers.contains_key(n) implies is_canonical(n)
            && 0 <= t.numbers[n] < 1000 by {
            lemma_extension_text_of_value(table_entries(self.number_to_extension)[n]);
        }
    }

    /// The tables of the standard dial plan. They are kept for as long as
    /// the process runs.
    pub fn standard() -> (tables: RoutingTables)
        ensures
            tables@ == standard_tables(),
    {
        let numbers = standard_number_entries();
        let trunks = standard_trunk_entries();
        proof {
            lemma_standard_entries_valid();
        }
        RoutingTables {
            number_to_extension: table_build(numbers),
            extension_to_trunk: table_build(trunks),
        }
    }

    /// Tables that hold the written entries `numbers` (a canonical number,
    /// then its extension) and `trunks` (an extension, then its trunk).
    ///
    /// Returns `None` when a key occurs twice in one of the two, when a key
    /// or a value is not of the form that its place asks for, or when one of
    /// the two has more entries than a `u32` counts. The tables are kept for
    /// as long as the process runs.
    pub fn from_entries(
        numbers: Vec<(&'static str, &'static str)>,
        trunks: Vec<(&'static str, &'static str)>,
    ) -> (tables: Option<RoutingTables>)
        ensures
            tables is Some <==> valid_number_entries(entry_texts(numbers@)) && valid_trunk_entries(
                entry_texts(trunks@),
            ),
            tables matches Some(t) ==> t@ == tables_of(entry_texts(numbers@), entry_texts(trunks@)),
    {
        if !number_entries_valid(&numbers) || !trunk_entries_valid(&trunks) {
            return None;
        }
        Some(
            RoutingTables {
                number_to_extension: table_build(numbers),
                extension_to_trunk: table_build(trunks),
            },
        )
    }

    /// The extension that `number` rings, or `None` when the table does not
    /// hold exactly that number.
    pub fn lookup_extension(&self, number: &NationalNumber) -> (extension: Option<Extension>)
        ensures
            extension.deep_view() == self@.lookup_extension(number@),
    {
        match table_get(&self.number_to_extension, number.as_str()) {
            Some(text) => Extension::from_text(text),
            None => None,
        }
    }

    /// The trunk that `extension` calls out on, or `None` when the table
    /// does not hold that extension.
    pub fn lookup_trunk(&self, extension: Extension) -> (trunk: Option<NationalNumber>)
        ensures
            trunk.deep_view() == self@.lookup_trunk(extension@),
    {
        let key = extension.text();
        match table_get(&self.extension_to_trunk, key.as_str()) {
            Some(text) => NationalNumber::from_text(text),
            None => None,
        }
    }
}

/// Whether the key of the entry at `at` occurs among the entries before it.
fn key_seen_before(entries: &Vec<(&'static str, &'static str)>, at: usize) -> (seen: bool)
    requires
        at < entries@.len(),
    ensures
        seen == exists|i: int| 0 <= i < at && (#[trigger] entries@[i]).0@ == entries@[at as int].0@,
{
    let mut i: usize = 0;
    while i < at
        invariant
            i <= at < entries@.len(),
            forall|k: int| 0 <= k < i ==> (#[trigger] entries@[k]).0@ != entries@[at as int].0@,
        decreases at - i,
    {
        if same_text(entries[i].0, entries[at].0) {
            return true;
        }
        i += 1;
    }
    false
}

/// Whether the entries can be written into a number table.
fn number_entries_valid(entries: &Vec<(&'static str, &'static str)>) -> (valid: bool)
    ensures
        valid == valid_number_entries(entry_texts(entries@)),
{
    let ghost pairs = entry_texts(entries@);
    if entries.len() > 0xffff_ffff {
        return false;
    }
    let mut i: usize = 0;
    while i < entries.len()
        invariant
            i <= entries@.len(),
            pairs == entry_texts(entries@),
            forall|k: int|
                0 <= k < i ==> is_canonical((#[trigger] pairs[k]).0) && is_extension_text(
                    pairs[k].1,
                ),
        decreases entries@.len() - i,
    {
        let number = NationalNumber::from_text(entries[i].0);
        let extension = Extension::from_text(entries[i].1);
        if number.is_none() || extension.is_none() {
            assert(!(is_canonical(pairs[i as int].0) && is_extension_text(pairs[i as int].1)));
            return false;
        }
        i += 1;
    }
    keys_distinct(entries)
}

/// Whether the entries can be written into a trunk table.
fn trunk_entries_valid(entries: &Vec<(&'static str, &'static str)>) -> (valid: bool)
    ensures
        valid == valid_trunk_entries(entry_texts(entries@)),
{
    let ghost pairs = entry_texts(entries@);
    if entries.len() > 0xffff_ffff {
        return false;
    }
    let mut i: usize = 0;
    while i < entries.len()
        invariant
            i <= entries@.len(),
            pairs == entry_texts(entries@),
            forall|k: int|
                0 <= k < i ==> is_extension_text((#[trigger] pairs[k]).0) && is_canonical(
                    pairs[k].1,
                ),
        decreases entries@.len() - i,
    {
        let extension = Extension::from_text(entries[i].0);
        let number = NationalNumber::from_text(entries[i].1);
        if number.is_none() || extension.is_none() {
            assert(!(is_extension_text(pairs[i as int].0) && is_canonical(pairs[i as int].1)));
            return false;
        }
        i += 1;
    }
    keys_distinct(entries)
}

/// Whether no key occurs twice among the entries.
fn keys_distinct(entries: &Vec<(&'static str, &'static str)>) -> (distinct: bool)
    ensures
        distinct == distinct_keys(entry_texts(entries@)),
{
    let ghost pairs = entry_texts(entries@);
    let mut j: usize = 0;
    while j < entries.len()
        invariant
            j <= entries@.len(),
            pairs == entry_texts(entries@),
            forall|a: int, b: int|
                0 <= a < b < j ==> (#[trigger] pairs[a]).0 != (#[trigger] pairs[b]).0,
        decreases entries@.len() - j,
    {
        if key_seen_before(entries, j) {
            proof {
                let a = choose|a: int|
                    0 <= a < j && (#[trigger] entries@[a]).0@ == entries@[j as int].0@;
                assert(pairs[a].0 == pairs[j as int].0);
            }
            return false;
        }
        j += 1;
    }
    true
}

/// The number table of the standard dial plan, as written.
pub open spec fn standard_numbers() -> Seq<(Seq<char>, Seq<char>)> {
    seq![
        ("79235253998"@, "501"@),
        ("79235254061"@, "502"@),
        ("79235254150"@, "503"@),
        ("79235254132"@, "504"@),
        ("79235254389"@, "505"@),
        ("79235254439"@, "506"@),
        ("79235254667"@, "507"@),
        ("79235254706"@, "508"@),
        ("79235255049"@, "509"@),
        ("79235255136"@, "510"@),
        ("73843602313"@, "501"@),
        ("73843601773"@, "502"@),
        ("73843731773"@, "502"@),
        ("73843602414"@, "504"@),
        ("73843601771"@, "506"@),
        ("73843600912"@, "507"@),
        ("73843600911"@, "508"@),
        ("73843731458"@, "508"@),
        ("73843601331"@, "509"@),
        ("73843731313"@, "509"@),
        ("73843601221"@, "510"@),
        ("73843731500"@, "510"@),
        ("104"@, "501"@),
        ("135"@, "502"@),
        ("119"@, "502"@),
        ("111"@, "508"@),
        ("106"@, "509"@),
    ]
}

/// The trunk table of the standard dial plan, as written.
pub open spec fn standard_trunks() -> Seq<(Seq<char>, Seq<char>)> {
    seq![
        ("501"@, "79235253998"@),
        ("502"@, "79235254061"@),
        ("503"@, "79235254150"@),
        ("504"@, "79235254132"@),
        ("505"@, "79235254389"@),
        ("506"@, "79235254439"@),
        ("507"@, "79235254667"@),
        ("508"@, "79235254706"@),
        ("509"@, "79235255049"@),
        ("510"@, "79235255136"@),
    ]
}

/// The tables of the standard dial plan.
pub open spec fn standard_tables() -> TablesView {
    tables_of(standard_numbers(), standard_trunks())
}

/// The number table of the standard dial plan.
fn standard_number_entries() -> (entries: Vec<(&'static str, &'static str)>)
    ensures
        entry_texts(entries@) == standard_numbers(),
{
    let entries = vec![
        ("79235253998", "501"),
        ("79235254061", "502"),
        ("79235254150", "503"),
        ("79235254132", "504"),
        ("79235254389", "505"),
        ("79235254439", "506"),
        ("79235254667", "507"),
        ("79235254706", "508"),
        ("79235255049", "509"),
        ("79235255136", "510"),
        ("73843602313", "501"),
        ("73843601773", "502"),
        ("73843731773", "502"),
        ("73843602414", "504"),
        ("73843601771", "506"),
        ("73843600912", "507"),
        ("73843600911", "508"),
        ("73843731458", "508"),
        ("73843601331", "509"),
        ("73843731313", "509"),
        ("73843601221", "510"),
        ("73843731500", "510"),
        ("104", "501"),
        ("135", "502"),
        ("119", "502"),
        ("111", "508"),
        ("106", "509"),
    ];
    entries
}

/// The trunk table of the standard dial plan.
fn standard_trunk_entries() -> (entries: Vec<(&'static str, &'static str)>)
    ensures
        entry_texts(entries@) == standard_trunks(),
{
    let entries = vec![
        ("501", "79235253998"),
        ("502", "79235254061"),
        ("503", "79235254150"),
        ("504", "79235254132"),
        ("505", "79235254389"),
        ("506", "79235254439"),
        ("507", "79235254667"),
        ("508", "79235254706"),
        ("509", "79235255049"),
        ("510", "79235255136"),
    ];
    entries
}

/// Whether two texts have the same length and the same first eleven
/// characters.
spec fn agree_on_first_eleven(a: Seq<char>, b: Seq<char>) -> bool {
    &&& a.len() == b.len()
    &&& a[0] == b[0]
    &&& a[1] == b[1]
    &&& a[2] == b[2]
    &&& a[3] == b[3]
    &&& a[4] == b[4]
    &&& a[5] == b[5]
    &&& a[6] == b[6]
    &&& a[7] == b[7]
    &&& a[8] == b[8]
    &&& a[9] == b[9]
    &&& a[10] == b[10]
}

/// The standard number table can be written as it stands.
proof fn lemma_standard_numbers_valid()
    ensures
        valid_number_entries(standard_numbers()),
{
    reveal_strlit("79235253998");
    reveal_strlit("79235254061");
    reveal_strlit("79235254150");
    reveal_strlit("79235254132");
    reveal_strlit("79235254389");
    reveal_strlit("79235254439");
    reveal_strlit("79235254667");
    reveal_strlit("79235254706");
    reveal_strlit("79235255049");
    reveal_strlit("79235255136");
    reveal_strlit("73843602313");
    reveal_strlit("73843601773");
    reveal_strlit("73843731773");
    reveal_strlit("73843602414");
    reveal_strlit("73843601771");
    reveal_strlit("73843600912");
    reveal_strlit("73843600911");
    reveal_strlit("73843731458");
    reveal_strlit("73843601331");
    reveal_strlit("73843731313");
    reveal_strlit("73843601221");
    reveal_strlit("73843731500");
    reveal_strlit("104");
    reveal_strlit("135");
    reveal_strlit("119");
    reveal_strlit("111");
    reveal_strlit("106");
    reveal_strlit("501");
    reveal_strlit("502");
    reveal_strlit("503");
    reveal_strlit("504");
    reveal_strlit("505");
    reveal_strlit("506");
    reveal_strlit("507");
    reveal_strlit("508");
    reveal_strlit("509");
    reveal_strlit("510");
    let s = standard_numbers();
    assert forall|i: int, j: int| 0 <= i < j < s.len() implies (#[trigger] s[i]).0 != (
    #[trigger] s[j]).0 by {
        assert(!agree_on_first_eleven(s[i].0, s[j].0));
    }
}

/// The standard trunk table can be written as it stands.
proof fn lemma_standard_trunks_valid()
    ensures
        valid_trunk_entries(standard_trunks()),
{
    reveal_strlit("79235253998");
    reveal_strlit("79235254061");
    reveal_strlit("79235254150");
    reveal_strlit("79235254132");
    reveal_strlit("79235254389");
    reveal_strlit("79235254439");
    reveal_strlit("79235254667");
    reveal_strlit("79235254706");
    reveal_strlit("79235255049");
    reveal_strlit("79235255136");
    reveal_strlit("501");
    reveal_strlit("502");
    reveal_strlit("503");
    reveal_strlit("504");
    reveal_strlit("505");
    reveal_strlit("506");
    reveal_strlit("507");
    reveal_strlit("508");
    reveal_strlit("509");
    reveal_strlit("510");
    let s = standard_trunks();
    assert forall|i: int, j: int| 0 <= i < j < s.len() implies (#[trigger] s[i]).0 != (
    #[trigger] s[j]).0 by {
        assert(!agree_on_first_eleven(s[i].0, s[j].0));
    }
}

/// In the standard dial plan no two extensions share a trunk.
pub proof fn lemma_standard_trunks_one_to_one()
    ensures
        forall|i: int, j: int|
            0 <= i < j < standard_trunks().len() ==> (#[trigger] standard_trunks()[i]).1 != (
            #[trigger] standard_trunks()[j]).1,
{
    reveal_strlit("79235253998");
    reveal_strlit("79235254061");
    reveal_strlit("79235254150");
    reveal_strlit("79235254132");
    reveal_strlit("79235254389");
    reveal_strlit("79235254439");
    reveal_strlit("79235254667");
    reveal_strlit("79235254706");
    reveal_strlit("79235255049");
    reveal_strlit("79235255136");
    let s = standard_trunks();
    assert forall|i: int, j: int| 0 <= i < j < s.len() implies (#[trigger] s[i]).1 != (
    #[trigger] s[j]).1 by {
        assert(!agree_on_first_eleven(s[i].1, s[j].1));
    }
}

/// Every entry of the standard dial plan is of the form that its place asks
/// for, and no key is written twice: the standard tables hold all of them.
pub proof fn lemma_standard_entries_valid()
    ensures
        valid_number_entries(standard_numbers()),
        valid_trunk_entries(standard_trunks()),
{
    lemma_standard_numbers_valid();
    lemma_standard_trunks_valid();
}

/// In the standard dial plan each trunk is also a number that rings the
/// extension whose trunk it is.
pub proof fn lemma_standard_trunks_ring_back(i: int)
    requires
        0 <= i < standard_trunks().len(),
    ensures
        ({
            let extension = extension_value(standard_trunks()[i].0);
            let trunk = standard_trunks()[i].1;
            &&& standard_tables().lookup_trunk(extension) == Some(trunk)
            &&& standard_tables().lookup_extension(trunk) == Some(extension)
        }),
{
    lemma_standard_entries_valid();
    let numbers = standard_numbers();
    let trunks = standard_trunks();
    lemma_pairs_map_entry(trunks, i);
    lemma_pairs_map_entry(numbers, i);
    lemma_extension_text_of_value(trunks[i].0);
}

} // verus!
