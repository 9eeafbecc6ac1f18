//! Database-specific arguments, passed to the native library as a
//! NUL-terminated array of `name=value` strings.

use vstd::prelude::*;
use vstd::string::StringExecFns;

use crate::conv::contains_nul;
use crate::conv::spec_contains_nul;
use crate::error::Error;

verus! {

/// How one (name, optional value) pair is rendered for the native array.
pub open spec fn spec_format_arg(name: Seq<char>, value: Option<Seq<char>>) -> Seq<char> {
    match value {
        Some(v) => name + "="@ + v,
        None => name,
    }
}

/// The rendered argument list a successful build yields.
pub open spec fn spec_format_args(pairs: Seq<(Seq<char>, Option<Seq<char>>)>) -> Seq<Seq<char>>
    decreases pairs.len(),
{
    if pairs.len() == 0 {
        Seq::<Seq<char>>::empty()
    } else {
        spec_format_args(pairs.drop_last()).push(
            spec_format_arg(pairs.last().0, pairs.last().1),
        )
    }
}

/// Whether every rendered argument can back a C string.
pub open spec fn spec_args_nul_free(pairs: Seq<(Seq<char>, Option<Seq<char>>)>) -> bool {
    forall|i: int|
        0 <= i < pairs.len() ==> !spec_contains_nul(
            #[trigger] spec_format_arg(pairs[i].0, pairs[i].1),
        )
}

/// Database arguments in the shape the native boundary takes them: one owned
/// NUL-free string per argument. The native call site appends the
/// terminating null pointer; the strings live exactly as long as this value.
#[derive(Debug)]
pub struct KAdminDbArgs {
    args: Vec<String>,
}

impl KAdminDbArgs {
    /// The rendered arguments, as seen by specifications.
    pub closed spec fn spec_args(&self) -> Seq<Seq<char>> {
        self.args.deep_view()
    }

    /// Construct a new [builder][`KAdminDbArgsBuilder`].
    pub fn builder() -> (r: KAdminDbArgsBuilder)
        ensures
            r@ == Seq::<(Seq<char>, Option<Seq<char>>)>::empty(),
    {
        KAdminDbArgsBuilder { pairs: Vec::new() }
    }

    /// The rendered arguments.
    pub fn args(&self) -> (r: &Vec<String>)
        ensures
            r.deep_view() == self.spec_args(),
    {
        &self.args
    }
}

impl Default for KAdminDbArgs {
    /// No database arguments at all.
    fn default() -> (r: Self)
        ensures
            r.spec_args() == Seq::<Seq<char>>::empty(),
    {
        KAdminDbArgs { args: Vec::new() }
    }
}

/// Accumulates (name, optional value) pairs for [`KAdminDbArgs`].
#[derive(Clone, Debug)]
pub struct KAdminDbArgsBuilder {
    pairs: Vec<(String, Option<String>)>,
}

impl View for KAdminDbArgsBuilder {
    type V = Seq<(Seq<char>, Option<Seq<char>>)>;

    closed spec fn view(&self) -> Seq<(Seq<char>, Option<Seq<char>>)> {
        Seq::new(
            self.pairs@.len(),
            |i: int|
                (
                    self.pairs@[i].0@,
                    match self.pairs@[i].1 {
                        None => None,
                        Some(v) => Some(v@),
                    },
                ),
        )
    }
}

impl KAdminDbArgsBuilder {
    /// Record one argument, with or without a value.
    pub fn arg(self, name: &str, value: Option<&str>) -> (r: Self)
        ensures
            r@ == self@.push(
                (
                    name@,
                    match value {
                        None => None,
                        Some(v) => Some(v@),
                    },
                ),
            ),
    {
        let owned_value = match value {
            None => None,
            Some(v) => Some(v.to_owned()),
        };
        let mut pairs = self.pairs;
        pairs.push((name.to_owned(), owned_value));
        let r = KAdminDbArgsBuilder { pairs };
        proof {
            assert(r@ =~= self@.push(
                (
                    name@,
                    match value {
                        None => None,
                        Some(v) => Some(v@),
                    },
                ),
            ));
        }
        r
    }

    /// Render every recorded pair as `name=value` (or bare `name`),
    /// validating each rendered string for the native boundary.
    pub fn build(&self) -> (r: Result<KAdminDbArgs, Error>)
        ensures
            r is Ok <==> spec_args_nul_free(self@),
            r matches Ok(a) ==> a.spec_args() == spec_format_args(self@),
            r is Err ==> r matches Err(Error::StringConversion),
    {
        let mut args: Vec<String> = Vec::new();
        let mut i: usize = 0;
        proof {
            assert(args.deep_view() =~= spec_format_args(self@.subrange(0, 0)));
        }
        while i < self.pairs.len()
            invariant
                0 <= i <= self.pairs@.len(),
                self@.len() == self.pairs@.len(),
                args.deep_view() == spec_format_args(self@.subrange(0, i as int)),
                forall|m: int|
                    0 <= m < i ==> !spec_contains_nul(
                        #[trigger] spec_format_arg(self@[m].0, self@[m].1),
                    ),
            decreases self.pairs@.len() - i,
        {
            let ghost seen = self@.subrange(0, i as int);
            let ghost next = self@.subrange(0, i + 1 as int);
            proof {
                assert(next.drop_last() =~= seen);
                assert(next.last() == self@[i as int]);
            }
            let pair = &self.pairs[i];
            let mut rendered = pair.0.clone();
            match &pair.1 {
                Some(v) => {
                    rendered.append("=");
                    rendered.append(v.as_str());
                },
                None => {},
            }
            proof {
                assert(rendered@ =~= spec_format_arg(self@[i as int].0, self@[i as int].1));
            }
            if contains_nul(rendered.as_str()) {
                return Err(Error::StringConversion);
            }
            let ghost prev = args.deep_view();
            let ghost rendered_view = rendered@;
            args.push(rendered);
            proof {
                assert forall|m: int| 0 <= m < prev.len() implies args.deep_view()[m] == prev[m]
                by {}
                assert(args.deep_view()[prev.len() as int] == rendered_view);
                assert(args.deep_view() =~= prev.push(rendered_view));
                assert(args.deep_view() =~= spec_format_args(next));
            }
            i += 1;
        }
        proof {
            assert(self@.subrange(0, self@.len() as int) =~= self@);
        }
        Ok(KAdminDbArgs { args })
    }
}

} // verus!
