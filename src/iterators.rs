//! Filtering, counting and taking arguments one by one.

use vstd::prelude::*;

verus! {

/// A shoe of some size and style.
#[derive(PartialEq, Debug)]
pub struct Shoe {
    pub size: u32,
    pub style: String,
}

/// The shoes of `shoes` whose size is `size`, in their order.
pub open spec fn shoes_of_size(shoes: Seq<Shoe>, size: u32) -> Seq<Shoe> {
    shoes.filter(|s: Shoe| s.size == size)
}

/// Keeps the shoes of size `shoe_size`, in their order.
pub fn shoes_in_size(shoes: Vec<Shoe>, shoe_size: u32) -> (r: Vec<Shoe>)
    ensures
        r@ == shoes_of_size(shoes@, shoe_size),
{
    let ghost all = shoes@;
    let mut rest = shoes;
    let mut kept: Vec<Shoe> = Vec::new();
    let ghost mut i: int = 0;
    while rest.len() > 0
        invariant
            0 <= i <= all.len(),
            rest@ == all.subrange(i, all.len() as int),
            kept@ == shoes_of_size(all.subrange(0, i), shoe_size),
        decreases rest@.len(),
    {
        let shoe = rest.remove(0);
        proof {
            reveal(Seq::filter);
            assert(all.subrange(0, i + 1).drop_last() =~= all.subrange(0, i));
            assert(all.subrange(0, i + 1).last() == shoe);
            assert(rest@ =~= all.subrange(i + 1, all.len() as int));
        }
        if shoe.size == shoe_size {
            kept.push(shoe);
        }
        proof {
            i = i + 1;
        }
    }
    assert(all.subrange(0, all.len() as int) =~= all);
    kept
}

/// Counts from 1 to 5, one number a call.
pub struct Counter {
    count: u32,
}

impl Counter {
    /// How many numbers have been given out.
    pub closed spec fn spec_count(&self) -> u32 {
        self.count
    }

    /// A counter that has given out nothing yet.
    pub fn new() -> (r: Counter)
        ensures
            r.spec_count() == 0,
    {
        Counter { count: 0 }
    }

    /// The next number, or `None` once 5 has been given out.
    pub fn next(&mut self) -> (r: Option<u32>)
        ensures
            old(self).spec_count() < 5 ==> final(self).spec_count() == old(self).spec_count() + 1
                && r == Some(final(self).spec_count()),
            old(self).spec_count() >= 5 ==> final(self).spec_count() == old(self).spec_count()
                && r is None,
    {
        if self.count < 5 {
            self.count += 1;
            Some(self.count)
        } else {
            None
        }
    }
}

/// A search configuration: what to look for, where, and whether case
/// matters.
pub struct ConfigWithClone {
    pub query: String,
    pub filename: String,
    pub case_sensitive: bool,
}

impl ConfigWithClone {
    /// Reads the query and the file name from `args`, which holds the
    /// program's name first. The search is case-sensitive unless
    /// `case_insensitive` says that the environment asks otherwise.
    pub fn new(args: &[String], case_insensitive: bool) -> (r: Result<ConfigWithClone, &'static str>)
        ensures
            r is Err <==> args@.len() < 3,
            r matches Err(e) ==> e@ == "not enough arguments"@,
            r matches Ok(c) ==> c.query@ == args@[1]@ && c.filename@ == args@[2]@
                && c.case_sensitive == !case_insensitive,
    {
        if args.len() < 3 {
            return Err("not enough arguments");
        }
        let query = args[1].clone();
        let filename = args[2].clone();
        let case_sensitive = !case_insensitive;
        Ok(ConfigWithClone { query, filename, case_sensitive })
    }
}

/// A search configuration: what to look for, and where.
#[derive(Debug, PartialEq)]
pub struct ConfigWithIterators {
    pub query: String,
    pub filename: String,
}

impl ConfigWithIterators {
    /// Takes the query and the file name out of `args`, which holds the
    /// program's name first; what follows them is dropped.
    pub fn new(args: Vec<String>) -> (r: Result<ConfigWithIterators, &'static str>)
        ensures
            r is Err <==> args@.len() < 3,
            r matches Err(e) ==> e@ == "not enough arguments"@,
            r matches Ok(c) ==> c.query@ == args@[1]@ && c.filename@ == args@[2]@,
    {
        if args.len() < 3 {
            return Err("not enough arguments");
        }
        let mut args = args;
        let filename = args.remove(2);
        let query = args.remove(1);
        Ok(ConfigWithIterators { query, filename })
    }
}

/// The argument that a [FakeArgs] gives out as its `n`-th, counting from 1.
pub open spec fn fake_arg(n: u32) -> Seq<char> {
    if n == 1 {
        "minigrep"@
    } else if n == 2 {
        "query"@
    } else {
        "filename.txt"@
    }
}

/// Stands in for the program's arguments: gives out `minigrep`, `query`
/// and `filename.txt`, then nothing.
pub struct FakeArgs {
    count: u32,
}

impl FakeArgs {
    /// At most three arguments are ever given out.
    #[verifier::type_invariant]
    spec fn at_most_three(self) -> bool {
        self.count <= 3
    }

    /// How many arguments have been given out.
    pub closed spec fn spec_count(&self) -> u32 {
        self.count
    }

    /// Arguments of which none has been given out yet.
    pub fn new() -> (r: FakeArgs)
        ensures
            r.spec_count() == 0,
    {
        FakeArgs { count: 0 }
    }

    /// The next argument, or `None` once all three have been given out.
    pub fn next(&mut self) -> (r: Option<String>)
        ensures
            old(self).spec_count() < 3 ==> final(self).spec_count() == old(self).spec_count() + 1
                && (r matches Some(a) && a@ == fake_arg(final(self).spec_count())),
            old(self).spec_count() >= 3 ==> final(self).spec_count() == old(self).spec_count()
                && r is None,
    {
        proof {
            use_type_invariant(&*self);
        }
        if self.count >= 3 {
            return None;
        }
        self.count = self.count + 1;
        if self.count == 1 {
            Some("minigrep".to_owned())
        } else if self.count == 2 {
            Some("query".to_owned())
        } else {
            Some("filename.txt".to_owned())
        }
    }
}

} // verus!
