use vstd::prelude::*;

verus! {

/// A constrained value built by validating a raw input.
pub trait Staged: Sized {
    /// What the user edits.
    type Raw;

    type Error;

    /// Whether `r` is the outcome of validating `raw`.
    spec fn outcome_of(raw: Self::Raw, r: Result<Self, Self::Error>) -> bool;

    /// Whether `raw` is the raw value a fresh field starts with.
    spec fn is_default_raw(raw: Self::Raw) -> bool;

    fn default_raw() -> (r: Self::Raw)
        ensures
            Self::is_default_raw(r),
    ;

    fn copy_raw(raw: &Self::Raw) -> (r: Self::Raw)
        ensures
            r == *raw,
    ;

    fn copy_outcome(r: &Result<Self, Self::Error>) -> (c: Result<Self, Self::Error>)
        ensures
            c == *r,
    ;

    fn validate(raw: Self::Raw) -> (r: Result<Self, Self::Error>)
        ensures
            Self::outcome_of(raw, r),
    ;
}

/// A node of the staged tree: it owns its raw input and the outcome derived
/// from it.
pub trait StagedNode: Sized {
    /// One edit to this node.
    type Raw;

    /// The outcome of this node.
    type Value;

    spec fn wf(&self) -> bool;

    /// Whether this node is as newly created.
    spec fn is_fresh(&self) -> bool;

    /// The current outcome.
    spec fn spec_state(&self) -> Self::Value;

    /// Whether `new` is `old` after the edit `raw`.
    spec fn updated(old: Self, raw: Self::Raw, new: Self) -> bool;

    fn fresh() -> (r: Self)
        ensures
            r.wf(),
            r.is_fresh(),
    ;

    fn update(&mut self, raw: Self::Raw)
        requires
            old(self).wf(),
        ensures
            final(self).wf(),
            Self::updated(*old(self), raw, *final(self)),
    ;

    fn state(&self) -> (r: Self::Value)
        requires
            self.wf(),
        ensures
            r == self.spec_state(),
    ;
}

/// A numeric field: the number being edited and the outcome of validating it.
pub struct StagingNum<T: Staged> {
    raw: T::Raw,
    parsed: Result<T, T::Error>,
}

impl<T: Staged> StagingNum<T> {
    pub closed spec fn spec_raw(&self) -> T::Raw {
        self.raw
    }

    pub closed spec fn spec_parsed(&self) -> Result<T, T::Error> {
        self.parsed
    }

    pub open spec fn inv(&self) -> bool {
        T::outcome_of(self.spec_raw(), self.spec_parsed())
    }

    /// A field holding the default raw value, already validated.
    pub fn new() -> (r: Self)
        ensures
            r.inv(),
            T::is_default_raw(r.spec_raw()),
    {
        let raw = T::default_raw();
        let parsed = T::validate(T::copy_raw(&raw));
        StagingNum { raw, parsed }
    }

    /// Replaces the raw value and validates it again.
    pub fn set_raw(&mut self, raw: T::Raw)
        ensures
            final(self).inv(),
            final(self).spec_raw() == raw,
    {
        self.parsed = T::validate(T::copy_raw(&raw));
        self.raw = raw;
    }

    pub fn raw(&self) -> (r: &T::Raw)
        ensures
            *r == self.spec_raw(),
    {
        &self.raw
    }

    /// A copy of the last outcome.
    pub fn outcome(&self) -> (r: Result<T, T::Error>)
        ensures
            r == self.spec_parsed(),
    {
        T::copy_outcome(&self.parsed)
    }
}

impl<T: Staged> StagedNode for StagingNum<T> {
    type Raw = T::Raw;

    type Value = Result<T, T::Error>;

    open spec fn wf(&self) -> bool {
        self.inv()
    }

    open spec fn is_fresh(&self) -> bool {
        T::is_default_raw(self.spec_raw())
    }

    open spec fn spec_state(&self) -> Result<T, T::Error> {
        self.spec_parsed()
    }

    open spec fn updated(old: Self, raw: T::Raw, new: Self) -> bool {
        new.spec_raw() == raw
    }

    fn fresh() -> (r: Self) {
        StagingNum::new()
    }

    fn update(&mut self, raw: T::Raw) {
        self.set_raw(raw)
    }

    fn state(&self) -> (r: Result<T, T::Error>) {
        self.outcome()
    }
}

#[derive(Clone, Copy, Debug, PartialEq, Eq, Structural)]
pub enum InputLines {
    SingleLine,
    Multiline,
}

/// A text field: the text being edited and the outcome of validating it.
pub struct StagingString<T: Staged<Raw = String>> {
    raw: String,
    parsed: Result<T, T::Error>,
    input_lines: InputLines,
}

impl<T: Staged<Raw = String>> StagingString<T> {
    pub closed spec fn spec_raw(&self) -> String {
        self.raw
    }

    pub closed spec fn spec_parsed(&self) -> Result<T, T::Error> {
        self.parsed
    }

    pub closed spec fn spec_input_lines(&self) -> InputLines {
        self.input_lines
    }

    pub open spec fn inv(&self) -> bool {
        T::outcome_of(self.spec_raw(), self.spec_parsed())
    }

    /// An empty field, already validated.
    pub fn new(input_lines: InputLines) -> (r: Self)
        ensures
            r.inv(),
            r.spec_raw()@.len() == 0,
            r.spec_input_lines() == input_lines,
    {
        let raw = String::new();
        let parsed = T::validate(raw.clone());
        StagingString { raw, parsed, input_lines }
    }

    /// Replaces the text and validates it again.
    pub fn set_raw(&mut self, raw: String)
        ensures
            final(self).inv(),
            final(self).spec_raw() == raw,
            final(self).spec_input_lines() == old(self).spec_input_lines(),
    {
        self.parsed = T::validate(raw.clone());
        self.raw = raw;
    }

    pub fn raw(&self) -> (r: &String)
        ensures
            *r == self.spec_raw(),
    {
        &self.raw
    }

    pub fn input_lines(&self) -> (r: InputLines)
        ensures
            r == self.spec_input_lines(),
    {
        self.input_lines
    }

    /// A copy of the last outcome.
    pub fn outcome(&self) -> (r: Result<T, T::Error>)
        ensures
            r == self.spec_parsed(),
    {
        T::copy_outcome(&self.parsed)
    }
}

impl<T: Staged<Raw = String>> StagedNode for StagingString<T> {
    type Raw = String;

    type Value = Result<T, T::Error>;

    open spec fn wf(&self) -> bool {
        self.inv()
    }

    open spec fn is_fresh(&self) -> bool {
        self.spec_raw()@.len() == 0 && self.spec_input_lines() == InputLines::SingleLine
    }

    open spec fn spec_state(&self) -> Result<T, T::Error> {
        self.spec_parsed()
    }

    open spec fn updated(old: Self, raw: String, new: Self) -> bool {
        new.spec_raw() == raw && new.spec_input_lines() == old.spec_input_lines()
    }

    fn fresh() -> (r: Self) {
        StagingString::new(InputLines::SingleLine)
    }

    fn update(&mut self, raw: String) {
        self.set_raw(raw)
    }

    fn state(&self) -> (r: Result<T, T::Error>) {
        self.outcome()
    }
}

/// An optional field: absent, or present with a child node.
pub struct StagingOpt<S: StagedNode>(Option<S>);

impl<S: StagedNode> StagingOpt<S> {
    pub closed spec fn inner(&self) -> Option<S> {
        self.0
    }

    pub open spec fn inv(&self) -> bool {
        self.inner() is Some ==> self.inner()->Some_0.wf()
    }

    /// `None` while absent, else the child's outcome.
    pub open spec fn spec_outcome(&self) -> Option<S::Value> {
        match self.inner() {
            None => None,
            Some(c) => Some(c.spec_state()),
        }
    }

    /// An absent field.
    pub fn new() -> (r: Self)
        ensures
            r.inv(),
            r.inner() is None,
    {
        StagingOpt(None)
    }

    pub fn is_present(&self) -> (r: bool)
        ensures
            r == self.inner() is Some,
    {
        self.0.is_some()
    }

    /// The present child, if any.
    pub fn child(&self) -> (r: Option<&S>)
        ensures
            r is Some <==> self.inner() is Some,
            r is Some ==> *r->Some_0 == self.inner()->Some_0,
    {
        self.0.as_ref()
    }

    /// Makes the field present with a fresh child; keeps a present child.
    pub fn set_present(&mut self)
        requires
            old(self).inv(),
        ensures
            final(self).inv(),
            final(self).inner() is Some,
            old(self).inner() is Some ==> final(self).inner() == old(self).inner(),
            old(self).inner() is None ==> final(self).inner()->Some_0.is_fresh(),
    {
        if self.0.is_none() {
            self.0 = Some(S::fresh());
        }
    }

    /// Makes the field absent, dropping the child and its state.
    pub fn set_absent(&mut self)
        ensures
            final(self).inv(),
            final(self).inner() is None,
    {
        self.0 = None;
    }

    /// Passes an edit to the present child.
    pub fn update_child(&mut self, raw: S::Raw)
        requires
            old(self).inv(),
            old(self).inner() is Some,
        ensures
            final(self).inv(),
            final(self).inner() is Some,
            S::updated(old(self).inner()->Some_0, raw, final(self).inner()->Some_0),
    {
        let taken = self.0.take();
        match taken {
            Some(mut c) => {
                c.update(raw);
                self.0 = Some(c);
            },
            None => {},
        }
    }

    /// The outcome: `None` while absent, else the child's outcome.
    pub fn state(&self) -> (r: Option<S::Value>)
        requires
            self.inv(),
        ensures
            r == self.spec_outcome(),
    {
        match &self.0 {
            None => None,
            Some(c) => Some(c.state()),
        }
    }
}

/// A list of fields of one kind, never empty.
pub struct StagingVec<S: StagedNode> {
    item_name: String,
    staging: Vec<S>,
}

impl<S: StagedNode> StagingVec<S> {
    pub closed spec fn items(&self) -> Seq<S> {
        self.staging@
    }

    pub closed spec fn spec_item_name(&self) -> Seq<char> {
        self.item_name@
    }

    pub open spec fn inv(&self) -> bool {
        &&& self.items().len() >= 1
        &&& forall|i: int| 0 <= i < self.items().len() ==> (#[trigger] self.items()[i]).wf()
    }

    /// The outcomes of the items, in order.
    pub open spec fn spec_outcome(&self) -> Seq<S::Value> {
        self.items().map_values(|c: S| c.spec_state())
    }

    /// A list holding one fresh item.
    pub fn new(item_name: String) -> (r: Self)
        ensures
            r.inv(),
            r.items().len() == 1,
            r.items()[0].is_fresh(),
            r.spec_item_name() == item_name@,
    {
        let mut staging: Vec<S> = Vec::new();
        staging.push(S::fresh());
        StagingVec { item_name, staging }
    }

    pub fn item_name(&self) -> (r: &String)
        ensures
            r@ == self.spec_item_name(),
    {
        &self.item_name
    }

    pub fn len(&self) -> (r: usize)
        ensures
            r == self.items().len(),
    {
        self.staging.len()
    }

    /// The item at `index`.
    pub fn item(&self, index: usize) -> (r: &S)
        requires
            index < self.items().len(),
        ensures
            *r == self.items()[index as int],
    {
        &self.staging[index]
    }

    /// Appends a fresh item at the end.
    pub fn grow(&mut self)
        requires
            old(self).inv(),
        ensures
            final(self).inv(),
            final(self).items().len() == old(self).items().len() + 1,
            final(self).items().drop_last() == old(self).items(),
            final(self).items().last().is_fresh(),
            final(self).spec_item_name() == old(self).spec_item_name(),
    {
        self.staging.push(S::fresh());
        proof {
            assert(self.staging@.drop_last() =~= old(self).staging@);
        }
    }

    /// Removes the last item, unless it is the only one.
    pub fn shrink(&mut self)
        requires
            old(self).inv(),
        ensures
            final(self).inv(),
            old(self).items().len() > 1 ==> final(self).items() == old(self).items().drop_last(),
            old(self).items().len() == 1 ==> final(self).items() == old(self).items(),
            final(self).spec_item_name() == old(self).spec_item_name(),
    {
        if self.staging.len() > 1 {
            self.staging.pop();
            proof {
                assert(self.staging@ =~= old(self).staging@.drop_last());
            }
        }
    }

    /// Passes an edit to the item at `index`; does nothing when there is none.
    pub fn update_child(&mut self, index: usize, raw: S::Raw)
        requires
            old(self).inv(),
        ensures
            final(self).inv(),
            final(self).spec_item_name() == old(self).spec_item_name(),
            final(self).items().len() == old(self).items().len(),
            index >= old(self).items().len() ==> final(self).items() == old(self).items(),
            index < old(self).items().len() ==> S::updated(
                old(self).items()[index as int],
                raw,
                final(self).items()[index as int],
            ),
            forall|j: int|
                0 <= j < old(self).items().len() && j != index ==> #[trigger] final(self).items()[j]
                    == old(self).items()[j],
            forall|j: int|
                0 <= j < old(self).items().len() && j != index ==> #[trigger] final(self).spec_outcome()[j]
                    == old(self).spec_outcome()[j],
    {
        if index < self.staging.len() {
            let mut c = self.staging.remove(index);
            c.update(raw);
            self.staging.insert(index, c);
            proof {
                assert(self.staging@ =~= old(self).staging@.update(index as int, c));
            }
        }
    }

    /// The outcome of every item, in order; no item's failure hides another's.
    pub fn state(&self) -> (r: Vec<S::Value>)
        requires
            self.inv(),
        ensures
            r@ == self.spec_outcome(),
    {
        let mut out: Vec<S::Value> = Vec::new();
        let mut i: usize = 0;
        while i < self.staging.len()
            invariant
                self.inv(),
                i <= self.staging@.len(),
                out@ =~= self.staging@.subrange(0, i as int).map_values(|c: S| c.spec_state()),
            decreases self.staging@.len() - i,
        {
            out.push(self.staging[i].state());
            i = i + 1;
            proof {
                assert(out@ =~= self.staging@.subrange(0, i as int).map_values(
                    |c: S| c.spec_state(),
                ));
            }
        }
        proof {
            assert(self.staging@.subrange(0, i as int) =~= self.staging@);
        }
        out
    }
}

} // verus!
