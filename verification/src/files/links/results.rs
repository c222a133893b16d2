//! The results module groups data related to check results.

use vstd::prelude::*;
use vstd::string::StringExecFns;

use crate::files::links::link::{entry_line, Kind, Link, LinkStatus, StatusView};

verus! {

/// Represents the results links check
pub struct Results {
    /// Links checked
    keys: Vec<Link>,
    /// Status returned for each link.
    ///
    /// Correspondence with `keys` is kept by index.
    values: Vec<LinkStatus>,
}

/// The number of entries of `entries` whose status is of the kind `kind`,
/// whatever reason they carry.
pub open spec fn count_kind(entries: Seq<(Seq<char>, StatusView)>, kind: Kind) -> nat {
    entries.filter(|entry: (Seq<char>, StatusView)| entry.1.kind() == kind).len()
}

/// The listing of `entries`: for each of them, in order, a line break and
/// then its report line.
pub open spec fn listing(entries: Seq<(Seq<char>, StatusView)>) -> Seq<char>
    decreases entries.len(),
{
    if entries.len() == 0 {
        Seq::empty()
    } else {
        listing(entries.drop_last()) + "\n"@ + entry_line(entries.last().0, entries.last().1)
    }
}

impl View for Results {
    type V = Seq<(Seq<char>, StatusView)>;

    /// The entries in the order of their insertion: each link with its status.
    closed spec fn view(&self) -> Seq<(Seq<char>, StatusView)> {
        Seq::new(self.keys@.len(), |i: int| (self.keys@[i]@, self.values@[i]@))
    }
}

impl Default for Results {
    fn default() -> (results: Self)
        ensures
            results@ == Seq::<(Seq<char>, StatusView)>::empty(),
    {
        Self::new()
    }
}

impl Results {
    #[verifier::type_invariant]
    spec fn aligned(self) -> bool {
        self.keys@.len() == self.values@.len()
    }

    /// Moves the two sequences out, leaving the results empty.
    fn take(&mut self) -> (parts: (Vec<Link>, Vec<LinkStatus>))
        ensures
            parts.0@.len() == parts.1@.len(),
            old(self)@ == Seq::new(parts.0@.len(), |i: int| (parts.0@[i]@, parts.1@[i]@)),
            final(self)@ == Seq::<(Seq<char>, StatusView)>::empty(),
    {
        proof {
            use_type_invariant(&*self);
        }
        let mut taken = Self::new();
        std::mem::swap(self, &mut taken);
        let Results { keys, values } = taken;
        (keys, values)
    }

    /// Creates a new empty results set.
    pub fn new() -> (results: Self)
        ensures
            results@ == Seq::<(Seq<char>, StatusView)>::empty(),
    {
        let results = Self { keys: Vec::new(), values: Vec::new() };
        results
    }

    /// Merges two sets of results together.
    ///
    /// `other` set is inserted **after** `self`.
    pub fn merge(&mut self, other: Self)
        ensures
            final(self)@ == old(self)@ + other@,
    {
        proof {
            use_type_invariant(&other);
        }
        let (mut keys, mut values) = self.take();
        let Results { keys: other_keys, values: other_values } = other;
        let mut other_keys = other_keys;
        let mut other_values = other_values;
        keys.append(&mut other_keys);
        values.append(&mut other_values);
        *self = Results { keys, values };
    }

    /// Inserts a new result
    pub fn inserts(&mut self, link: &Link, status: LinkStatus)
        ensures
            final(self)@ == old(self)@.push((link@, status@)),
    {
        let (mut keys, mut values) = self.take();
        keys.push(link.clone());
        values.push(status);
        *self = Results { keys, values };
    }

    /// Count the number of results with the given status.
    ///
    /// Only the variant of `status` is taken into account, not its reason.
    pub fn count_with(&self, status: LinkStatus) -> (count: usize)
        ensures
            count == count_kind(self@, status@.kind()),
    {
        proof {
            use_type_invariant(self);
        }
        let kind = status.kind();
        let mut count: usize = 0;
        let mut i: usize = 0;
        while i < self.values.len()
            invariant
                i <= self.values@.len(),
                self.keys@.len() == self.values@.len(),
                kind == status@.kind(),
                count <= i,
                count == count_kind(self@.take(i as int), kind),
            decreases self.values@.len() - i,
        {
            proof {
                reveal(Seq::filter);
                assert(self@.take(i + 1).drop_last() =~= self@.take(i as int));
            }
            if self.values[i].kind() == kind {
                count = count + 1;
            }
            i = i + 1;
        }
        assert(self@.take(i as int) =~= self@);
        count
    }

    /// The listing of the results, one line per link with the tag of its
    /// status and the reason where there is one
    pub fn render(&self) -> (text: String)
        ensures
            text@ == listing(self@),
    {
        proof {
            use_type_invariant(self);
        }
        let mut text = String::new();
        let mut i: usize = 0;
        while i < self.keys.len()
            invariant
                i <= self.keys@.len(),
                self.keys@.len() == self.values@.len(),
                text@ == listing(self@.take(i as int)),
            decreases self.keys@.len() - i,
        {
            assert(self@.take(i + 1).drop_last() =~= self@.take(i as int));
            let line = self.keys[i].report(&self.values[i]);
            text.append("\n");
            text.append(line.as_str());
            i = i + 1;
        }
        assert(self@.take(i as int) =~= self@);
        text
    }

    /// Counting goes by the kind alone: the count for dead links is the
    /// number of entries that are dead for whatever reason, and the count
    /// for warnings is the number of entries that are warnings for whatever
    /// reason, whichever reason the status counted with carries.
    pub proof fn lemma_count_ignores_reason(entries: Seq<(Seq<char>, StatusView)>, reason: Seq<char>)
        ensures
            count_kind(entries, StatusView::Dead(reason).kind()) == entries.filter(
                |entry: (Seq<char>, StatusView)| entry.1 is Dead,
            ).len(),
            count_kind(entries, StatusView::Warn(reason).kind()) == entries.filter(
                |entry: (Seq<char>, StatusView)| entry.1 is Warn,
            ).len(),
    {
        let by_dead_kind = |entry: (Seq<char>, StatusView)| entry.1.kind() == Kind::Dead;
        let is_dead = |entry: (Seq<char>, StatusView)| entry.1 is Dead;
        assert(by_dead_kind =~= is_dead);
        let by_warn_kind = |entry: (Seq<char>, StatusView)| entry.1.kind() == Kind::Warn;
        let is_warn = |entry: (Seq<char>, StatusView)| entry.1 is Warn;
        assert(by_warn_kind =~= is_warn);
    }

    /// Two statuses of one kind count the same entries.
    pub proof fn lemma_count_same_kind(
        entries: Seq<(Seq<char>, StatusView)>,
        one: StatusView,
        other: StatusView,
    )
        requires
            one.kind() == other.kind(),
        ensures
            count_kind(entries, one.kind()) == count_kind(entries, other.kind()),
    {
    }

    /// Merging keeps the order: merging `b` and then `c` into `a` gives the
    /// entries of `a`, then those of `b`, then those of `c`, as many as the
    /// three hold together, whichever two are merged first.
    pub proof fn lemma_merge_order(
        a: Seq<(Seq<char>, StatusView)>,
        b: Seq<(Seq<char>, StatusView)>,
        c: Seq<(Seq<char>, StatusView)>,
    )
        ensures
            (a + b) + c == a + (b + c),
            ((a + b) + c).len() == a.len() + b.len() + c.len(),
            forall|i: int| 0 <= i < a.len() ==> ((a + b) + c)[i] == a[i],
            forall|i: int| 0 <= i < b.len() ==> ((a + b) + c)[a.len() + i] == b[i],
            forall|i: int| 0 <= i < c.len() ==> ((a + b) + c)[a.len() + b.len() + i] == c[i],
    {
    }

    /// The count of a kind in merged results is the sum of the counts in
    /// the two parts; merging empty results changes no count.
    pub proof fn lemma_count_merge(
        a: Seq<(Seq<char>, StatusView)>,
        b: Seq<(Seq<char>, StatusView)>,
        kind: Kind,
    )
        ensures
            count_kind(a + b, kind) == count_kind(a, kind) + count_kind(b, kind),
            b.len() == 0 ==> count_kind(a + b, kind) == count_kind(a, kind),
    {
        Seq::filter_distributes_over_add(
            a,
            b,
            |entry: (Seq<char>, StatusView)| entry.1.kind() == kind,
        );
        if b.len() == 0 {
            reveal(Seq::filter);
        }
    }

    /// The number of results
    pub fn len(&self) -> (len: usize)
        ensures
            len == self@.len(),
    {
        self.keys.len()
    }

    /// Links checked, in the order of their insertion
    pub fn keys(&self) -> (keys: &Vec<Link>)
        ensures
            keys@.len() == self@.len(),
            forall|i: int| 0 <= i < keys@.len() ==> (#[trigger] keys@[i])@ == self@[i].0,
    {
        &self.keys
    }

    /// Status returned for each link, in the order of the links
    pub fn values(&self) -> (values: &Vec<LinkStatus>)
        ensures
            values@.len() == self@.len(),
            forall|i: int| 0 <= i < values@.len() ==> (#[trigger] values@[i])@ == self@[i].1,
    {
        proof {
            use_type_invariant(self);
        }
        &self.values
    }
}

} // verus!
