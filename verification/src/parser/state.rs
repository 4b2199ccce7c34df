//! What the parser knows of where it is: the containers it is inside of,
//! and how deep it has gone.

use vstd::prelude::*;

verus! {

/// How many levels of nesting the parser enters, blocks and inlines
/// together. What lies deeper is read as plain paragraphs and text.
pub const MAX_NESTING_DEPTH: usize = 48;

/// The context of a parse. A state is never changed: a nested scope gets
/// a state of its own, derived from the one around it.
#[derive(Debug)]
pub struct MarkdownParserState {
    /// The kinds of the containers around the current position, outermost
    /// first.
    pub containers: Vec<String>,
    /// How many levels of nesting lie around the current position.
    pub nesting: usize,
}

impl MarkdownParserState {
    /// The kinds of the containers around the current position.
    pub open spec fn kinds(&self) -> Seq<Seq<char>> {
        Seq::new(self.containers@.len(), |k: int| self.containers@[k]@)
    }

    /// Whether the position lies inside a container.
    pub open spec fn guarded(&self) -> bool {
        self.containers@.len() > 0
    }

    /// How many levels of nesting are left.
    pub open spec fn budget(&self) -> nat {
        if self.nesting <= MAX_NESTING_DEPTH {
            (MAX_NESTING_DEPTH - self.nesting) as nat
        } else {
            0
        }
    }

    /// The state at the start of a document.
    pub fn new() -> (r: Self)
        ensures
            r.kinds() == Seq::<Seq<char>>::empty(),
            r.nesting == 0,
            !r.guarded(),
    {
        let r = MarkdownParserState { containers: Vec::new(), nesting: 0 };
        assert(r.kinds() =~= Seq::<Seq<char>>::empty());
        r
    }

    fn copy_containers(&self) -> (r: Vec<String>)
        ensures
            r@.len() == self.containers@.len(),
            forall|k: int| 0 <= k < r@.len() ==> r@[k]@ == self.containers@[k]@,
    {
        let mut out: Vec<String> = Vec::new();
        let mut k: usize = 0;
        while k < self.containers.len()
            invariant
                k <= self.containers.len(),
                out.len() == k,
                forall|j: int| 0 <= j < k ==> out@[j]@ == self.containers@[j]@,
            decreases self.containers.len() - k,
        {
            out.push(self.containers[k].clone());
            k += 1;
        }
        out
    }

    /// The state one level deeper, inside the same containers.
    pub fn nested(&self) -> (r: Self)
        ensures
            r.kinds() == self.kinds(),
            r.nesting == if self.nesting < usize::MAX {
                self.nesting + 1
            } else {
                self.nesting as int
            },
    {
        let containers = self.copy_containers();
        let nesting = if self.nesting < usize::MAX {
            self.nesting + 1
        } else {
            self.nesting
        };
        let r = MarkdownParserState { containers, nesting };
        assert(r.kinds() =~= self.kinds());
        r
    }

    /// The state inside one more container of kind `extra`: the parent's
    /// state with `extra` appended. The parent is left as it is.
    pub fn derive_child(&self, extra: &str) -> (r: Self)
        ensures
            r.kinds() == self.kinds().push(extra@),
            r.nesting == self.nesting,
            r.guarded(),
    {
        let mut containers = self.copy_containers();
        containers.push(extra.to_owned());
        let r = MarkdownParserState { containers, nesting: self.nesting };
        assert(r.kinds() =~= self.kinds().push(extra@));
        r
    }

    /// Tests whether the position lies inside a container.
    pub fn in_container(&self) -> (r: bool)
        ensures
            r == self.guarded(),
    {
        self.containers.len() > 0
    }
}

impl Clone for MarkdownParserState {
    fn clone(&self) -> (r: Self)
        ensures
            r.kinds() == self.kinds(),
            r.nesting == self.nesting,
    {
        let r = MarkdownParserState { containers: self.copy_containers(), nesting: self.nesting };
        assert(r.kinds() =~= self.kinds());
        r
    }
}

impl Default for MarkdownParserState {
    fn default() -> (r: Self)
        ensures
            r.kinds() == Seq::<Seq<char>>::empty(),
            r.nesting == 0,
    {
        MarkdownParserState::new()
    }
}

} // verus!
