//! The status operation: the national load-shedding stage and the regions
//! that differ from it.
use vstd::prelude::*;

use crate::errors::HttpError;
use crate::request::resolve;
use crate::text::{lower_of, lowercase};
use crate::traits::Endpoint;
use crate::Endpoints;

verus! {

/// A load-shedding stage. The API writes a stage as a whole number in a
/// string: `"0"` is no load shedding, `"1"` stage 1, and so on.
#[derive(Debug, Clone)]
pub enum Stage {
    NoLoadShedding,
    Stage1,
    Stage2,
    Stage3,
    Stage4,
    Stage5,
    Stage6,
    Stage7,
    Stage8,
    /// Any other stage, held as the API wrote it.
    Stage(String),
}

/// The digit that names each of the stages `0` to `8`, by number.
pub open spec fn stage_digit(n: int) -> char {
    if n == 0 {
        '0'
    } else if n == 1 {
        '1'
    } else if n == 2 {
        '2'
    } else if n == 3 {
        '3'
    } else if n == 4 {
        '4'
    } else if n == 5 {
        '5'
    } else if n == 6 {
        '6'
    } else if n == 7 {
        '7'
    } else {
        '8'
    }
}

impl Stage {
    /// The string that the API writes for this stage.
    pub open spec fn encoding(&self) -> Seq<char> {
        match self {
            Stage::NoLoadShedding => seq![stage_digit(0)],
            Stage::Stage1 => seq![stage_digit(1)],
            Stage::Stage2 => seq![stage_digit(2)],
            Stage::Stage3 => seq![stage_digit(3)],
            Stage::Stage4 => seq![stage_digit(4)],
            Stage::Stage5 => seq![stage_digit(5)],
            Stage::Stage6 => seq![stage_digit(6)],
            Stage::Stage7 => seq![stage_digit(7)],
            Stage::Stage8 => seq![stage_digit(8)],
            Stage::Stage(s) => s@,
        }
    }

    /// The string that the API writes for this stage.
    pub fn encode(&self) -> (r: String)
        ensures
            r@ == self.encoding(),
    {
        let mut r = String::new();
        match self {
            Stage::NoLoadShedding => r.append("0"),
            Stage::Stage1 => r.append("1"),
            Stage::Stage2 => r.append("2"),
            Stage::Stage3 => r.append("3"),
            Stage::Stage4 => r.append("4"),
            Stage::Stage5 => r.append("5"),
            Stage::Stage6 => r.append("6"),
            Stage::Stage7 => r.append("7"),
            Stage::Stage8 => r.append("8"),
            Stage::Stage(s) => r.append(s.as_str()),
        }
        proof {
            reveal_strlit("0");
            reveal_strlit("1");
            reveal_strlit("2");
            reveal_strlit("3");
            reveal_strlit("4");
            reveal_strlit("5");
            reveal_strlit("6");
            reveal_strlit("7");
            reveal_strlit("8");
        }
        r
    }
}

/// The stage that the string `s` stands for: a named stage for `"0"` to
/// `"8"`, else `s` itself under the catch-all variant.
pub open spec fn parse_stage(s: String) -> Stage {
    if s@ == seq![stage_digit(0)] {
        Stage::NoLoadShedding
    } else if s@ == seq![stage_digit(1)] {
        Stage::Stage1
    } else if s@ == seq![stage_digit(2)] {
        Stage::Stage2
    } else if s@ == seq![stage_digit(3)] {
        Stage::Stage3
    } else if s@ == seq![stage_digit(4)] {
        Stage::Stage4
    } else if s@ == seq![stage_digit(5)] {
        Stage::Stage5
    } else if s@ == seq![stage_digit(6)] {
        Stage::Stage6
    } else if s@ == seq![stage_digit(7)] {
        Stage::Stage7
    } else if s@ == seq![stage_digit(8)] {
        Stage::Stage8
    } else {
        Stage::Stage(s)
    }
}

/// Whether `s` is the one-character string `c`.
fn is_single(s: &str, c: char) -> (r: bool)
    ensures
        r == (s@ == seq![c]),
{
    if s.unicode_len() == 1 {
        let d = s.get_char(0);
        if d == c {
            assert(s@ =~= seq![c]);
        }
        d == c
    } else {
        false
    }
}

impl PartialEq<String> for Stage {
    fn eq(&self, other: &String) -> (r: bool) {
        let o = other.as_str();
        match self {
            Stage::NoLoadShedding => is_single(o, '0'),
            Stage::Stage1 => is_single(o, '1'),
            Stage::Stage2 => is_single(o, '2'),
            Stage::Stage3 => is_single(o, '3'),
            Stage::Stage4 => is_single(o, '4'),
            Stage::Stage5 => is_single(o, '5'),
            Stage::Stage6 => is_single(o, '6'),
            Stage::Stage7 => is_single(o, '7'),
            Stage::Stage8 => is_single(o, '8'),
            Stage::Stage(stage) => stage.eq(other),
        }
    }
}

impl vstd::std_specs::cmp::PartialEqSpecImpl<String> for Stage {
    open spec fn obeys_eq_spec() -> bool {
        true
    }

    open spec fn eq_spec(&self, other: &String) -> bool {
        self.encoding() == other@
    }
}

impl From<String> for Stage {
    fn from(stage: String) -> (r: Stage) {
        let s = stage.as_str();
        if is_single(s, '0') {
            Stage::NoLoadShedding
        } else if is_single(s, '1') {
            Stage::Stage1
        } else if is_single(s, '2') {
            Stage::Stage2
        } else if is_single(s, '3') {
            Stage::Stage3
        } else if is_single(s, '4') {
            Stage::Stage4
        } else if is_single(s, '5') {
            Stage::Stage5
        } else if is_single(s, '6') {
            Stage::Stage6
        } else if is_single(s, '7') {
            Stage::Stage7
        } else if is_single(s, '8') {
            Stage::Stage8
        } else {
            Stage::Stage(stage)
        }
    }
}

impl vstd::std_specs::convert::FromSpecImpl<String> for Stage {
    open spec fn obeys_from_spec() -> bool {
        true
    }

    open spec fn from_spec(v: String) -> Stage {
        parse_stage(v)
    }
}

/// Reading a stage keeps its text: the stage read from `s` is written as `s`,
/// it compares equal to exactly the strings equal to `s`, and it is a named
/// stage exactly for `"0"` to `"8"`.
pub proof fn lemma_stage_round_trip(s: String, t: String)
    ensures
        parse_stage(s).encoding() == s@,
        (parse_stage(s).encoding() == t@) <==> (s@ == t@),
        parse_stage(s) is Stage <==> !(exists|n: int| 0 <= n <= 8 && s@ == seq![stage_digit(n)]),
{
    if exists|n: int| 0 <= n <= 8 && s@ == seq![stage_digit(n)] {
        let n = choose|n: int| 0 <= n <= 8 && s@ == seq![stage_digit(n)];
        assert(0 <= n <= 8);
    } else {
        assert(s@ != seq![stage_digit(0)]);
        assert(s@ != seq![stage_digit(1)]);
        assert(s@ != seq![stage_digit(2)]);
        assert(s@ != seq![stage_digit(3)]);
        assert(s@ != seq![stage_digit(4)]);
        assert(s@ != seq![stage_digit(5)]);
        assert(s@ != seq![stage_digit(6)]);
        assert(s@ != seq![stage_digit(7)]);
        assert(s@ != seq![stage_digit(8)]);
    }
}

/// The descriptor of the status operation, which takes no parameters.
#[derive(Debug, Clone, Default)]
pub struct EskomStatusUrl {}

impl Endpoint for EskomStatusUrl {
    open spec fn base(&self) -> Seq<char> {
        Endpoints::Status.address()
    }

    open spec fn query(&self) -> Option<Seq<char>> {
        None
    }

    open spec fn refusal(&self) -> Option<HttpError> {
        None
    }

    fn endpoint(&self) -> (r: &'static str) {
        Endpoints::Status.as_str()
    }

    fn url(&self) -> (r: Result<String, HttpError>) {
        resolve(self.endpoint(), None)
    }
}

/// The key of the nation-wide entry: `eskom`.
pub open spec fn national_key() -> Seq<char> {
    seq!['e', 's', 'k', 'o', 'm']
}

/// The status recorded under `key`: that of the first entry with this key.
pub open spec fn lookup_region(entries: Seq<(String, LoadsheddingStatus)>, key: Seq<char>) -> Option<
    LoadsheddingStatus,
>
    decreases entries.len(),
{
    if entries.len() == 0 {
        None
    } else if entries[0].0@ == key {
        Some(entries[0].1)
    } else {
        lookup_region(entries.drop_first(), key)
    }
}

/// The nation-wide load-shedding status and that of the regions that do not
/// follow it (most often `capetown`).
#[derive(Debug, Clone, PartialEq, Eq, Default)]
pub struct EskomStatus {
    /// The status of each region, under its lower-case key; `eskom` is the
    /// nation-wide one. A lookup takes the first entry with its key.
    pub status: Vec<(String, LoadsheddingStatus)>,
}

impl EskomStatus {
    /// The status recorded under `key`.
    pub open spec fn region(&self, key: Seq<char>) -> Option<LoadsheddingStatus> {
        lookup_region(self.status@, key)
    }

    /// The status that `area` asks for, whatever the case of its letters.
    pub open spec fn area_status(&self, area: Seq<char>) -> Option<LoadsheddingStatus> {
        self.region(lower_of(area))
    }

    /// The entry recorded under `key`.
    fn find(&self, key: &String) -> (r: Option<&LoadsheddingStatus>)
        ensures
            match r {
                Some(x) => self.region(key@) == Some(*x),
                None => self.region(key@) is None,
            },
    {
        let n = self.status.len();
        let mut i: usize = 0;
        assert(self.status@.subrange(0, n as int) =~= self.status@);
        while i < n
            invariant
                i <= n,
                n == self.status@.len(),
                lookup_region(self.status@, key@) == lookup_region(
                    self.status@.subrange(i as int, n as int),
                    key@,
                ),
            decreases n - i,
        {
            let ghost rest = self.status@.subrange(i as int, n as int);
            assert(rest.drop_first() =~= self.status@.subrange(i + 1, n as int));
            let entry = &self.status[i];
            if entry.0.eq(key) {
                return Some(&entry.1);
            }
            i = i + 1;
        }
        assert(self.status@.subrange(n as int, n as int).len() == 0);
        None
    }

    /// The nation-wide status.
    pub fn eskom(&self) -> (r: &LoadsheddingStatus)
        requires
            self.region(national_key()) is Some,
        ensures
            self.region(national_key()) == Some(*r),
    {
        proof {
            reveal_strlit("eskom");
        }
        let key = String::from_str("eskom");
        assert(key@ =~= national_key());
        self.find(&key).unwrap()
    }

    /// The status of `area`, whose case does not matter: its key is `area` in
    /// lower case.
    pub fn area(&self, area: &str) -> (r: Option<&LoadsheddingStatus>)
        ensures
            match r {
                Some(x) => self.area_status(area@) == Some(*x),
                None => self.area_status(area@) is None,
            },
    {
        let key = lowercase(area);
        self.find(&key)
    }

    /// The keys of all regions, in the order of the entries.
    pub fn keys(&mut self) -> (r: Vec<String>)
        ensures
            *final(self) == *old(self),
            r@.len() == old(self).status@.len(),
            forall|i: int| 0 <= i < r@.len() ==> #[trigger] r@[i]@ == old(self).status@[i].0@,
    {
        let n = self.status.len();
        let mut r: Vec<String> = Vec::new();
        let mut i: usize = 0;
        while i < n
            invariant
                i <= n,
                n == self.status@.len(),
                r@.len() == i,
                forall|k: int| 0 <= k < i ==> #[trigger] r@[k]@ == self.status@[k].0@,
            decreases n - i,
        {
            r.push(self.status[i].0.clone());
            i = i + 1;
        }
        r
    }
}

/// A lookup by area ignores case: two names with the same lower-case form
/// give the same status.
pub proof fn lemma_area_ignores_case(status: EskomStatus, a: Seq<char>, b: Seq<char>)
    requires
        lower_of(a) == lower_of(b),
    ensures
        status.area_status(a) == status.area_status(b),
{
}

/// The load-shedding status of one region.
#[derive(Debug, Clone, PartialEq, Eq, Default)]
pub struct LoadsheddingStatus {
    pub name: String,
    /// The stages to come.
    pub next_stages: Vec<NextStage>,
    /// The current stage, as the API writes it.
    pub stage: String,
    /// When the stage last changed.
    pub stage_updated: String,
}

impl LoadsheddingStatus {
    /// Whether the region is at `stage`.
    pub fn is_it_stage(&self, stage: Stage) -> (r: bool)
        ensures
            r == (stage.encoding() == self.stage@),
    {
        stage == self.stage
    }

    /// The current stage.
    pub fn get_stage(&self) -> (r: Stage)
        ensures
            r == parse_stage(self.stage),
    {
        Stage::from(self.stage.clone())
    }
}

/// An instant in UTC: seconds since 1970-01-01T00:00:00Z and the nanoseconds
/// within that second.
#[derive(Debug, Clone, Copy, PartialEq, Eq, Default)]
pub struct Timestamp {
    pub seconds: i64,
    pub nanos: u32,
}

/// A stage to come.
#[derive(Debug, Clone, PartialEq, Eq, Default)]
pub struct NextStage {
    /// The stage, as the API writes it.
    pub stage: String,
    /// When the stage starts.
    pub stage_start_timestamp: Timestamp,
}

impl NextStage {
    /// Whether this is `stage`.
    pub fn is_it_stage(&self, stage: Stage) -> (r: bool)
        ensures
            r == (stage.encoding() == self.stage@),
    {
        stage == self.stage
    }

    /// The stage to come.
    pub fn get_stage(&self) -> (r: Stage)
        ensures
            r == parse_stage(self.stage),
    {
        Stage::from(self.stage.clone())
    }
}

} // verus!
