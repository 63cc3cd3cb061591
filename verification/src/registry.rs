use vstd::prelude::*;
use crate::errors::{ErrorKind, ToolError, spec_collision_message, spec_not_found_message};
use crate::idgen::fresh_identifier;
use crate::timefmt::{format_mm_ss, spec_mm_ss};

verus! {

/// What the registry remembers of one instant: the caller-chosen label and
/// the monotonic-clock reading, in milliseconds, at which it was created.
/// Both are immutable for the lifetime of the entry.
pub ghost struct InstantModel {
    pub label: Seq<char>,
    pub created_at_millis: u64,
}

struct Entry {
    id: String,
    label: String,
    created_at_millis: u64,
}

impl Entry {
    spec fn model(&self) -> InstantModel {
        InstantModel { label: self.label@, created_at_millis: self.created_at_millis }
    }
}

spec fn entries_map(s: Seq<Entry>) -> Map<Seq<char>, InstantModel>
    decreases s.len(),
{
    if s.len() == 0 {
        Map::empty()
    } else {
        entries_map(s.drop_last()).insert(s.last().id@, s.last().model())
    }
}

spec fn ids_unique(s: Seq<Entry>) -> bool {
    forall|i: int, j: int| 0 <= i < j < s.len() ==> s[i].id@ != s[j].id@
}

proof fn lemma_entries_map_domain(s: Seq<Entry>, key: Seq<char>)
    ensures
        entries_map(s).contains_key(key) <==> exists|i: int|
            0 <= i < s.len() && #[trigger] s[i].id@ == key,
    decreases s.len(),
{
    if s.len() > 0 {
        lemma_entries_map_domain(s.drop_last(), key);
        if s.last().id@ == key {
            assert(s[s.len() - 1].id@ == key);
        } else {
            if entries_map(s).contains_key(key) {
                let i = choose|i: int| 0 <= i < s.drop_last().len() && #[trigger] s.drop_last()[i].id@ == key;
                assert(s[i].id@ == key);
            }
            if exists|i: int| 0 <= i < s.len() && #[trigger] s[i].id@ == key {
                let i = choose|i: int| 0 <= i < s.len() && #[trigger] s[i].id@ == key;
                assert(i < s.len() - 1);
                assert(s.drop_last()[i].id@ == key);
            }
        }
    }
}

proof fn lemma_entries_map_value(s: Seq<Entry>, i: int)
    requires
        ids_unique(s),
        0 <= i < s.len(),
    ensures
        entries_map(s).contains_key(s[i].id@),
        entries_map(s)[s[i].id@] == s[i].model(),
    decreases s.len(),
{
    if i == s.len() - 1 {
    } else {
        assert(ids_unique(s.drop_last())) by {
            assert(forall|p: int, q: int|
                0 <= p < q < s.drop_last().len() ==> s.drop_last()[p] == s[p]
                    && s.drop_last()[q] == s[q]);
        }
        lemma_entries_map_value(s.drop_last(), i);
        assert(s.drop_last()[i] == s[i]);
        assert(s[i].id@ != s.last().id@);
    }
}

/// A process-lifetime registry of instants, keyed by opaque identifiers.
///
/// Its abstract value is a map from identifier to [`InstantModel`]; keys are
/// unique, entries are never overwritten, and nothing is ever evicted.
pub struct InstantRegistry {
    entries: Vec<Entry>,
}

impl View for InstantRegistry {
    type V = Map<Seq<char>, InstantModel>;

    closed spec fn view(&self) -> Map<Seq<char>, InstantModel> {
        entries_map(self.entries@)
    }
}

/// A successful elapsed-time lookup: the stored label and the elapsed
/// duration rendered as `mm:ss`.
#[derive(Debug)]
pub struct ElapsedReport {
    pub label: String,
    pub formatted: String,
}

/// The first report line: `instance label: ` followed by the label.
pub open spec fn spec_label_line(label: Seq<char>) -> Seq<char> {
    "instance label: "@ + label
}

/// The second report line: `time has elapsed ` followed by the duration.
pub open spec fn spec_time_line(formatted: Seq<char>) -> Seq<char> {
    "time has elapsed "@ + formatted
}

impl ElapsedReport {
    /// Renders the label line of the report.
    pub fn label_line(&self) -> (r: String)
        ensures
            r@ == spec_label_line(self.label@),
    {
        let mut s = "instance label: ".to_owned();
        s.append(self.label.as_str());
        s
    }

    /// Renders the elapsed-duration line of the report.
    pub fn time_line(&self) -> (r: String)
        ensures
            r@ == spec_time_line(self.formatted@),
    {
        let mut s = "time has elapsed ".to_owned();
        s.append(self.formatted.as_str());
        s
    }
}

/// The whole seconds that have passed between a stored monotonic reading and
/// a later one, saturating at zero if the later reading is somehow smaller.
pub open spec fn spec_elapsed_secs(start_millis: u64, now_millis: u64) -> nat {
    if now_millis >= start_millis {
        ((now_millis - start_millis) / 1000) as nat
    } else {
        0
    }
}

/// Computes whole elapsed seconds between two monotonic readings in
/// milliseconds, saturating at zero.
pub fn elapsed_secs(start_millis: u64, now_millis: u64) -> (r: u64)
    ensures
        r as nat == spec_elapsed_secs(start_millis, now_millis),
{
    if now_millis >= start_millis {
        (now_millis - start_millis) / 1000
    } else {
        0
    }
}

fn str_eq(a: &str, b: &str) -> (r: bool)
    ensures
        r == (a@ == b@),
{
    let sa = a.to_owned();
    let sb = b.to_owned();
    sa == sb
}

impl InstantRegistry {
    #[verifier::type_invariant]
    spec fn wf(&self) -> bool {
        ids_unique(self.entries@)
    }

    /// An empty registry.
    pub fn new() -> (r: Self)
        ensures
            r@ == Map::<Seq<char>, InstantModel>::empty(),
    {
        let r = InstantRegistry { entries: Vec::new() };
        proof {
            assert(r@ =~= Map::<Seq<char>, InstantModel>::empty());
        }
        r
    }

    fn find_index(&self, id: &str) -> (r: Option<usize>)
        ensures
            match r {
                Some(i) => i < self.entries@.len() && self.entries@[i as int].id@ == id@,
                None => forall|i: int|
                    0 <= i < self.entries@.len() ==> #[trigger] self.entries@[i].id@ != id@,
            },
    {
        let n = self.entries.len();
        let mut i: usize = 0;
        while i < n
            invariant
                n == self.entries@.len(),
                i <= n,
                forall|j: int| 0 <= j < i ==> #[trigger] self.entries@[j].id@ != id@,
            decreases n - i,
        {
            if str_eq(self.entries[i].id.as_str(), id) {
                return Some(i);
            }
            i = i + 1;
        }
        None
    }

    /// Whether an instant is registered under the given identifier.
    pub fn contains(&self, id: &str) -> (r: bool)
        ensures
            r == self@.contains_key(id@),
    {
        proof {
            lemma_entries_map_domain(self.entries@, id@);
        }
        match self.find_index(id) {
            Some(_) => true,
            None => false,
        }
    }

    /// Registers an instant under a caller-supplied identifier, unless that
    /// identifier is already taken. Returns whether the identifier was fresh;
    /// an existing entry is never overwritten.
    pub fn register(&mut self, id: String, label: &str, now_millis: u64) -> (fresh: bool)
        ensures
            fresh == !old(self)@.contains_key(id@),
            fresh ==> final(self)@ == old(self)@.insert(
                id@,
                InstantModel { label: label@, created_at_millis: now_millis },
            ),
            !fresh ==> final(self)@ == old(self)@,
    {
        proof {
            use_type_invariant(&*self);
            lemma_entries_map_domain(self.entries@, id@);
        }
        if self.contains(id.as_str()) {
            return false;
        }
        let ghost old_entries = self.entries@;
        let entry = Entry { id, label: label.to_owned(), created_at_millis: now_millis };
        let mut entries: Vec<Entry> = Vec::new();
        std::mem::swap(&mut entries, &mut self.entries);
        entries.push(entry);
        proof {
            assert(entries@.drop_last() =~= old_entries);
            assert(ids_unique(entries@)) by {
                assert(forall|j: int|
                    0 <= j < old_entries.len() ==> #[trigger] entries@[j].id@ == old_entries[j].id@);
            }
        }
        self.entries = entries;
        proof {
            assert(self@ =~= old(self)@.insert(
                entry.id@,
                InstantModel { label: label@, created_at_millis: now_millis },
            ));
        }
        true
    }

    /// Records a new instant with the given label at the given
    /// monotonic-clock reading, under a freshly generated identifier, and
    /// returns the identifier. Labels need no validation: any text, including
    /// empty text, is accepted.
    ///
    /// In the negligible event that the fresh identifier collides with an
    /// existing one, nothing is stored and an internal error is returned; an
    /// existing entry is never overwritten.
    pub fn create(&mut self, label: &str, now_millis: u64) -> (r: Result<String, ToolError>)
        ensures
            match r {
                Ok(id) => !old(self)@.contains_key(id@) && id@.len() == 36 && final(self)@ == old(
                    self,
                )@.insert(id@, InstantModel { label: label@, created_at_millis: now_millis }),
                Err(e) => final(self)@ == old(self)@ && e.kind == ErrorKind::Internal
                    && e.message@ == spec_collision_message(),
            },
    {
        let id = fresh_identifier();
        let fresh = self.register(id.clone(), label, now_millis);
        if fresh {
            Ok(id)
        } else {
            Err(ToolError::identifier_collision())
        }
    }

    /// Looks up an instant and reports its label together with the time that
    /// has elapsed between its creation and the given monotonic-clock
    /// reading, rendered as `mm:ss`. Reading never mutates the registry.
    ///
    /// Fails with a not-found error, naming the identifier, exactly when the
    /// identifier is not registered.
    pub fn elapsed(&self, id: &str, now_millis: u64) -> (r: Result<ElapsedReport, ToolError>)
        ensures
            self@.contains_key(id@) ==> matches!(r, Ok(_)),
            match r {
                Ok(rep) => self@.contains_key(id@) && rep.label@ == self@[id@].label
                    && rep.formatted@ == spec_mm_ss(
                    spec_elapsed_secs(self@[id@].created_at_millis, now_millis),
                ),
                Err(e) => !self@.contains_key(id@) && e.kind == ErrorKind::NotFound
                    && e.message@ == spec_not_found_message(id@),
            },
    {
        proof {
            use_type_invariant(&*self);
            lemma_entries_map_domain(self.entries@, id@);
        }
        match self.find_index(id) {
            Some(i) => {
                proof {
                    lemma_entries_map_value(self.entries@, i as int);
                }
                let entry = &self.entries[i];
                let secs = elapsed_secs(entry.created_at_millis, now_millis);
                let formatted = format_mm_ss(secs);
                Ok(ElapsedReport { label: entry.label.clone(), formatted })
            },
            None => Err(ToolError::not_found(id)),
        }
    }
}

} // verus!
