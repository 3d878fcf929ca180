use vstd::prelude::*;

use crate::location::{global_slot, Location, GP};

verus! {

/// Sum of the sizes of the first `n` declarations.
pub open spec fn prefix_size(sizes: Seq<usize>, n: int) -> int
    decreases n,
{
    if n <= 0 {
        0
    } else {
        prefix_size(sizes, n - 1) + sizes[n - 1] as int
    }
}

/// Index of the latest entry equal to `name`, or -1 when there is none.
pub open spec fn last_index_of(names: Seq<Seq<char>>, name: Seq<char>) -> int
    decreases names.len(),
{
    if names.len() == 0 {
        -1
    } else if names.last() == name {
        names.len() - 1
    } else {
        last_index_of(names.drop_last(), name)
    }
}

/// The table of global variables, in the order they were declared.
pub struct Globals {
    names: Vec<String>,
    sizes: Vec<usize>,
    size: usize,
}

impl Globals {
    /// Names of the declarations, oldest first.
    pub closed spec fn names(&self) -> Seq<Seq<char>> {
        views(self.names@)
    }

    /// Sizes of the declarations, oldest first.
    pub closed spec fn sizes(&self) -> Seq<usize> {
        self.sizes@
    }

    pub closed spec fn wf(&self) -> bool {
        &&& self.names@.len() == self.sizes@.len()
        &&& self.size as int == prefix_size(self.sizes@, self.sizes@.len() as int)
        &&& self.size <= isize::MAX
    }

    /// Storage that the globals take: the sum of all declared sizes.
    pub open spec fn total(&self) -> int {
        prefix_size(self.sizes(), self.sizes().len() as int)
    }

    /// Offset of a global from the global base: the sizes declared before
    /// its latest declaration.
    pub open spec fn offset_of(&self, name: Seq<char>) -> int {
        prefix_size(self.sizes(), last_index_of(self.names(), name))
    }

    pub open spec fn is_declared(&self, name: Seq<char>) -> bool {
        last_index_of(self.names(), name) >= 0
    }

    /// The first global named in `loc` that has no declaration, walking outside in.
    pub open spec fn first_undefined(&self, loc: Location) -> Option<Seq<char>>
        decreases loc,
    {
        match loc {
            Location::Address(_) => None,
            Location::Indirect(inner) => self.first_undefined(*inner),
            Location::Offset(inner, _) => self.first_undefined(*inner),
            Location::Global(name) => if self.is_declared(name@) {
                None
            } else {
                Some(name@)
            },
        }
    }

    /// `loc` with every global replaced by its slot relative to `GP`.
    pub open spec fn resolved(&self, loc: Location) -> Location
        decreases loc,
    {
        match loc {
            Location::Address(a) => Location::Address(a),
            Location::Indirect(inner) => Location::Indirect(Box::new(self.resolved(*inner))),
            Location::Offset(inner, k) => Location::Offset(Box::new(self.resolved(*inner)), k),
            Location::Global(name) => global_slot(self.offset_of(name@) as isize),
        }
    }

    pub fn new() -> (r: Globals)
        ensures
            r.wf(),
            r.names() == Seq::<Seq<char>>::empty(),
            r.sizes() == Seq::<usize>::empty(),
    {
        let r = Globals { names: Vec::new(), sizes: Vec::new(), size: 0 };
        assert(r.names() =~= Seq::<Seq<char>>::empty());
        r
    }

    /// Append a global of `size` cells after those already declared.
    pub fn add_global(&mut self, name: String, size: usize)
        requires
            old(self).wf(),
            old(self).total() + size <= isize::MAX,
        ensures
            final(self).wf(),
            final(self).names() == old(self).names().push(name@),
            final(self).sizes() == old(self).sizes().push(size),
            final(self).total() == old(self).total() + size,
            final(self).is_declared(name@),
            final(self).offset_of(name@) == old(self).total(),
    {
        proof {
            lemma_prefix_size_push(old(self).sizes@, size, old(self).sizes@.len() as int);
        }
        self.names.push(name);
        self.sizes.push(size);
        self.size = self.size + size;
        assert(self.names() =~= old(self).names().push(name@));
        assert(prefix_size(self.sizes@, self.sizes@.len() as int) == prefix_size(
            old(self).sizes@,
            old(self).sizes@.len() as int,
        ) + size) by {
            lemma_prefix_size_push(old(self).sizes@, size, old(self).sizes@.len() as int);
        }
    }

    /// A well-formed table has one size for each name.
    pub proof fn lemma_one_size_per_name(&self)
        requires
            self.wf(),
        ensures
            self.names().len() == self.sizes().len(),
    {
    }

    /// Storage that the globals take.
    pub fn get_size(&self) -> (r: usize)
        requires
            self.wf(),
        ensures
            r == self.total(),
    {
        self.size
    }

    /// Offset of the global `name` from the global base.
    pub fn offset(&self, name: &str) -> (r: Option<usize>)
        requires
            self.wf(),
        ensures
            r.is_some() == self.is_declared(name@),
            r.is_some() ==> r.unwrap() == self.offset_of(name@),
    {
        match find_last(&self.names, name) {
            Some(i) => {
                proof {
                    lemma_prefix_size_mono(self.sizes@, i as int, self.sizes@.len() as int);
                }
                let mut total: usize = 0;
                let mut k: usize = 0;
                while k < i
                    invariant
                        k <= i < self.sizes@.len(),
                        self.wf(),
                        total == prefix_size(self.sizes@, k as int),
                        prefix_size(self.sizes@, i as int) <= self.size,
                    decreases i - k,
                {
                    proof {
                        lemma_prefix_size_mono(self.sizes@, k + 1, i as int);
                    }
                    total = total + self.sizes[k];
                    k = k + 1;
                }
                Some(total)
            },
            None => None,
        }
    }

    /// Replace every global named in `loc` by its slot relative to `GP`.
    pub fn resolve(&self, loc: &Location) -> (r: Result<Location, String>)
        requires
            self.wf(),
        ensures
            match r {
                Ok(l) => self.first_undefined(*loc) is None && l == self.resolved(*loc),
                Err(name) => self.first_undefined(*loc) == Some(name@),
            },
        decreases loc,
    {
        match loc {
            Location::Address(a) => Ok(Location::Address(*a)),
            Location::Indirect(inner) => {
                let l = self.resolve(inner)?;
                Ok(Location::Indirect(Box::new(l)))
            },
            Location::Offset(inner, k) => {
                let l = self.resolve(inner)?;
                Ok(Location::Offset(Box::new(l), *k))
            },
            Location::Global(name) => match self.offset(name.as_str()) {
                Some(off) => {
                    proof {
                        lemma_last_index_bounds(self.names(), name@);
                        lemma_prefix_size_mono(
                            self.sizes@,
                            last_index_of(self.names(), name@),
                            self.sizes@.len() as int,
                        );
                    }
                    Ok(
                        Location::Offset(
                            Box::new(Location::Indirect(Box::new(Location::Address(GP)))),
                            off as isize,
                        ),
                    )
                },
                None => Err(name.clone()),
            },
        }
    }
}

/// The views of a vector of strings.
pub open spec fn views(v: Seq<String>) -> Seq<Seq<char>> {
    v.map_values(|s: String| s@)
}

/// Index of the latest entry of `names` equal to `name`, if any.
pub fn find_last(names: &Vec<String>, name: &str) -> (r: Option<usize>)
    ensures
        match r {
            Some(i) => i == last_index_of(views(names@), name@) && i < names@.len(),
            None => last_index_of(views(names@), name@) == -1,
        },
{
    let key = name.to_owned();
    let mut i: usize = names.len();
    assert(views(names@).take(i as int) =~= views(names@));
    while i > 0
        invariant
            i <= names@.len(),
            key@ == name@,
            last_index_of(views(names@), name@) == last_index_of(views(names@).take(i as int), name@),
        decreases i,
    {
        let j = i - 1;
        assert(views(names@).take(i as int).drop_last() =~= views(names@).take(j as int));
        if names[j].eq(&key) {
            return Some(j);
        }
        i = j;
    }
    None
}

pub proof fn lemma_prefix_size_push(sizes: Seq<usize>, s: usize, n: int)
    requires
        0 <= n <= sizes.len(),
    ensures
        prefix_size(sizes.push(s), n) == prefix_size(sizes, n),
        n == sizes.len() ==> prefix_size(sizes.push(s), n + 1) == prefix_size(sizes, n) + s,
    decreases n,
{
    if n > 0 {
        lemma_prefix_size_push(sizes, s, n - 1);
    }
}

pub proof fn lemma_prefix_size_mono(sizes: Seq<usize>, i: int, j: int)
    requires
        0 <= i <= j <= sizes.len(),
    ensures
        0 <= prefix_size(sizes, i) <= prefix_size(sizes, j),
    decreases j,
{
    if i < j {
        lemma_prefix_size_mono(sizes, i, j - 1);
    } else {
        lemma_prefix_size_nonneg(sizes, i);
    }
}

pub proof fn lemma_prefix_size_nonneg(sizes: Seq<usize>, n: int)
    requires
        n <= sizes.len(),
    ensures
        prefix_size(sizes, n) >= 0,
    decreases n,
{
    if n > 0 {
        lemma_prefix_size_nonneg(sizes, n - 1);
    }
}

pub proof fn lemma_last_index_bounds(names: Seq<Seq<char>>, name: Seq<char>)
    ensures
        -1 <= last_index_of(names, name) < names.len(),
        last_index_of(names, name) >= 0 ==> names[last_index_of(names, name)] == name,
    decreases names.len(),
{
    if names.len() > 0 && names.last() != name {
        lemma_last_index_bounds(names.drop_last(), name);
    }
}

} // verus!
