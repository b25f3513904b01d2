//! The compiled-in table of patch rules, and the choice of a rule by build
//! number.

use vstd::prelude::*;

verus! {

/// One patch rule: the builds it applies to, the signature to look for and
/// the bytes that take its place.
#[derive(Debug, Clone, Copy)]
pub struct PatchPattern {
    pub description: &'static str,
    pub build_min: u32,
    pub build_max: u32,
    pub search: &'static [u8],
    pub replace: &'static [u8],
}

/// A rule as a mathematical value.
pub struct Rule {
    pub description: Seq<char>,
    pub build_min: u32,
    pub build_max: u32,
    pub search: Seq<u8>,
    pub replace: Seq<u8>,
}

impl Rule {
    /// A patch overwrites in place: the replacement is as long as the
    /// signature, and the signature is not empty.
    pub open spec fn wf(self) -> bool {
        &&& self.search.len() == self.replace.len()
        &&& self.search.len() > 0
    }

    /// Whether `build` lies in the rule's inclusive range.
    pub open spec fn covers(self, build: u32) -> bool {
        self.build_min <= build <= self.build_max
    }
}

impl View for PatchPattern {
    type V = Rule;

    open spec fn view(&self) -> Rule {
        Rule {
            description: self.description@,
            build_min: self.build_min,
            build_max: self.build_max,
            search: self.search@,
            replace: self.replace@,
        }
    }
}

const SEARCH_A: [u8; 13] = [
    0x8B, 0x81, 0x38, 0x06, 0x00, 0x00, 0x39, 0x81, 0x3C, 0x06, 0x00, 0x00, 0x75,
];

const REPLACE_A: [u8; 13] = [
    0xB8, 0x00, 0x01, 0x00, 0x00, 0x89, 0x81, 0x38, 0x06, 0x00, 0x00, 0x90, 0xEB,
];

const SEARCH_B: [u8; 7] = [0x39, 0x81, 0x3C, 0x06, 0x00, 0x00, 0x0F];

const REPLACE_B: [u8; 7] = [0xB8, 0x00, 0x01, 0x00, 0x00, 0x89, 0x81];

const SEARCH_C: [u8; 7] = [0x39, 0x87, 0x3C, 0x06, 0x00, 0x00, 0x0F];

const REPLACE_C: [u8; 7] = [0xB8, 0x00, 0x01, 0x00, 0x00, 0x90, 0x89];

/// The rule for builds 26100 to 99999.
pub open spec fn rule_a() -> Rule {
    Rule {
        description: "Recent major release A"@,
        build_min: 26100,
        build_max: 99999,
        search: seq![
            0x8Bu8, 0x81u8, 0x38u8, 0x06u8, 0x00u8, 0x00u8, 0x39u8, 0x81u8, 0x3Cu8, 0x06u8, 0x00u8,
            0x00u8, 0x75u8,
        ],
        replace: seq![
            0xB8u8, 0x00u8, 0x01u8, 0x00u8, 0x00u8, 0x89u8, 0x81u8, 0x38u8, 0x06u8, 0x00u8, 0x00u8,
            0x90u8, 0xEBu8,
        ],
    }
}

/// The rule for builds 9600 to 26099.
pub open spec fn rule_b() -> Rule {
    Rule {
        description: "Mid-generation release B"@,
        build_min: 9600,
        build_max: 26099,
        search: seq![0x39u8, 0x81u8, 0x3Cu8, 0x06u8, 0x00u8, 0x00u8, 0x0Fu8],
        replace: seq![0xB8u8, 0x00u8, 0x01u8, 0x00u8, 0x00u8, 0x89u8, 0x81u8],
    }
}

/// The rule for builds 7600 to 9599.
pub open spec fn rule_c() -> Rule {
    Rule {
        description: "Legacy release C"@,
        build_min: 7600,
        build_max: 9599,
        search: seq![0x39u8, 0x87u8, 0x3Cu8, 0x06u8, 0x00u8, 0x00u8, 0x0Fu8],
        replace: seq![0xB8u8, 0x00u8, 0x01u8, 0x00u8, 0x00u8, 0x90u8, 0x89u8],
    }
}

/// The rules in the order in which they are declared. The order decides
/// between rules whose ranges overlap.
pub open spec fn rule_table() -> Seq<Rule> {
    seq![rule_a(), rule_b(), rule_c()]
}

/// The index of the first rule of `table`, at or after `from`, whose range
/// holds `build`.
pub open spec fn first_covering(table: Seq<Rule>, build: u32, from: int) -> Option<int>
    decreases table.len() - from,
{
    if from < 0 || from >= table.len() {
        None
    } else if table[from].covers(build) {
        Some(from)
    } else {
        first_covering(table, build, from + 1)
    }
}

/// The rule that applies to `build`: the first of the table whose range
/// holds it.
pub open spec fn select_rule_spec(build: u32) -> Option<Rule> {
    match first_covering(rule_table(), build, 0) {
        Some(i) => Some(rule_table()[i]),
        None => None,
    }
}

/// Whether `found` is the choice of a rule for `build`.
pub open spec fn is_selection(build: u32, found: Option<PatchPattern>) -> bool {
    match found {
        Some(rule) => select_rule_spec(build) == Some(rule@),
        None => select_rule_spec(build) is None,
    }
}

/// `first_covering` finds the least index that covers the build, and finds
/// nothing only where no rule from `from` on covers it.
pub proof fn lemma_first_covering(table: Seq<Rule>, build: u32, from: int)
    requires
        0 <= from,
    ensures
        match first_covering(table, build, from) {
            Some(i) => {
                &&& from <= i < table.len()
                &&& table[i].covers(build)
                &&& forall|j: int| from <= j < i ==> !(#[trigger] table[j]).covers(build)
            },
            None => forall|j: int| from <= j < table.len() ==> !(#[trigger] table[j]).covers(build),
        },
    decreases table.len() - from,
{
    if from < table.len() && !table[from].covers(build) {
        lemma_first_covering(table, build, from + 1);
    }
}

/// Every rule of the table overwrites in place.
pub proof fn lemma_table_wf()
    ensures
        rule_table().len() == 3,
        forall|i: int| 0 <= i < rule_table().len() ==> (#[trigger] rule_table()[i]).wf(),
{
}

/// The selected rule is one of the table's, so it overwrites in place and
/// its range holds the build.
pub proof fn lemma_selected_rule(build: u32)
    ensures
        match select_rule_spec(build) {
            Some(rule) => rule.wf() && rule.covers(build),
            None => forall|i: int| 0 <= i < rule_table().len() ==> !(#[trigger] rule_table()[i]).covers(build),
        },
{
    lemma_first_covering(rule_table(), build, 0);
    lemma_table_wf();
}

/// How many rules the table holds.
fn pattern_count() -> (n: usize)
    ensures
        n == rule_table().len(),
{
    3
}

/// The rule at place `index` of the table.
fn pattern_at(index: usize) -> (rule: PatchPattern)
    requires
        index < rule_table().len(),
    ensures
        rule@ == rule_table()[index as int],
{
    if index == 0 {
        let rule = PatchPattern {
            description: "Recent major release A",
            build_min: 26100,
            build_max: 99999,
            search: SEARCH_A.as_slice(),
            replace: REPLACE_A.as_slice(),
        };
        assert(rule@.search =~= rule_a().search);
        assert(rule@.replace =~= rule_a().replace);
        rule
    } else if index == 1 {
        let rule = PatchPattern {
            description: "Mid-generation release B",
            build_min: 9600,
            build_max: 26099,
            search: SEARCH_B.as_slice(),
            replace: REPLACE_B.as_slice(),
        };
        assert(rule@.search =~= rule_b().search);
        assert(rule@.replace =~= rule_b().replace);
        rule
    } else {
        let rule = PatchPattern {
            description: "Legacy release C",
            build_min: 7600,
            build_max: 9599,
            search: SEARCH_C.as_slice(),
            replace: REPLACE_C.as_slice(),
        };
        assert(rule@.search =~= rule_c().search);
        assert(rule@.replace =~= rule_c().replace);
        rule
    }
}

/// The table: every rule, in the order in which they are declared.
pub fn patterns() -> (table: Vec<PatchPattern>)
    ensures
        table@.len() == rule_table().len(),
        forall|i: int| 0 <= i < table@.len() ==> (#[trigger] table@[i])@ == rule_table()[i],
{
    let count = pattern_count();
    let mut table: Vec<PatchPattern> = Vec::new();
    let mut index: usize = 0;
    while index < count
        invariant
            count == rule_table().len(),
            index <= count,
            table@.len() == index,
            forall|i: int| 0 <= i < index ==> (#[trigger] table@[i])@ == rule_table()[i],
        decreases count - index,
    {
        table.push(pattern_at(index));
        index += 1;
    }
    table
}

/// Picks the rule for `build`: the first in declaration order whose
/// inclusive range holds it, or nothing where no range does.
pub fn select_rule(build: u32) -> (found: Option<PatchPattern>)
    ensures
        is_selection(build, found),
{
    let count = pattern_count();
    let mut index: usize = 0;
    while index < count
        invariant
            count == rule_table().len(),
            index <= count,
            first_covering(rule_table(), build, 0) == first_covering(
                rule_table(),
                build,
                index as int,
            ),
        decreases count - index,
    {
        let rule = pattern_at(index);
        if rule.build_min <= build && build <= rule.build_max {
            return Some(rule);
        }
        index += 1;
    }
    None
}

} // verus!
