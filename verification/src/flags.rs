//! Flags for the C compiler (or preprocessor or linker) and their textual form.

use vstd::prelude::*;
use vstd::string::*;

verus! {

/// A flag for the C compiler (or preprocessor or linker).
#[derive(Debug, Clone)]
pub enum CcFlag {
    /// A `-DNAME` flag, or `-DNAME=VALUE` where a value is given.
    Define(String, Option<String>),
    /// An `-Ipath/to/headers` flag (or `-I` `path/to/headers`).
    IncludeDir(String),
    /// An `-Lpath/to/libs` flag (or `-L` `path/to/libs`).
    LibDir(String),
    /// An `-llibrary` flag.
    Lib(String),
    /// An unknown argument, passed through as it is.
    ///
    /// It is taken not to be something that would prevent the next argument
    /// from being parsed as an option, because there is no reliable way to tell.
    Other(String),
}

/// The mathematical value of a [`CcFlag`]: the same variants over sequences of
/// characters.
pub enum FlagView {
    Define(Seq<char>, Option<Seq<char>>),
    IncludeDir(Seq<char>),
    LibDir(Seq<char>),
    Lib(Seq<char>),
    Other(Seq<char>),
}

impl FlagView {
    /// The letter that follows the dash, for the flags that have one.
    pub open spec fn option_letter(self) -> Option<char> {
        match self {
            FlagView::Define(_, _) => Some('D'),
            FlagView::IncludeDir(_) => Some('I'),
            FlagView::LibDir(_) => Some('L'),
            FlagView::Lib(_) => Some('l'),
            FlagView::Other(_) => None,
        }
    }

    /// What the flag carries: `NAME` or `NAME=VALUE`, a path, a library's name,
    /// or the raw argument. Nothing is quoted or escaped.
    pub open spec fn payload(self) -> Seq<char> {
        match self {
            FlagView::Define(name, None) => name,
            FlagView::Define(name, Some(value)) => name + seq!['='] + value,
            FlagView::IncludeDir(path) => path,
            FlagView::LibDir(path) => path,
            FlagView::Lib(name) => name,
            FlagView::Other(raw) => raw,
        }
    }

    /// The flag's text, with `space` between the option letter and the payload.
    /// An unknown argument is its own text, whatever `space` is.
    pub open spec fn render(self, space: Seq<char>) -> Seq<char> {
        match self.option_letter() {
            Some(letter) => seq!['-', letter] + space + self.payload(),
            None => self.payload(),
        }
    }

    /// The text as one atomic argument, such as `-liberty`.
    pub open spec fn fused(self) -> Seq<char> {
        self.render(Seq::empty())
    }

    /// The text with one space after the option letter, such as `-l iberty`.
    pub open spec fn spaced(self) -> Seq<char> {
        self.render(seq![' '])
    }
}

impl View for CcFlag {
    type V = FlagView;

    open spec fn view(&self) -> FlagView {
        match self {
            CcFlag::Define(name, None) => FlagView::Define(name@, None),
            CcFlag::Define(name, Some(value)) => FlagView::Define(name@, Some(value@)),
            CcFlag::IncludeDir(path) => FlagView::IncludeDir(path@),
            CcFlag::LibDir(path) => FlagView::LibDir(path@),
            CcFlag::Lib(name) => FlagView::Lib(name@),
            CcFlag::Other(raw) => FlagView::Other(raw@),
        }
    }
}

/// The text `-`, `letter`, `space`, `payload`, in that order.
fn dashed(letter: &str, space: &str, payload: &str) -> (out: String)
    ensures
        out@ == seq!['-'] + letter@ + space@ + payload@,
{
    let mut out = String::from_str("-");
    proof {
        reveal_strlit("-");
        assert("-"@ =~= seq!['-']);
    }
    out.append(letter);
    out.append(space);
    out.append(payload);
    out
}

impl CcFlag {
    /// Renders the flag with `space` between the option letter and what follows.
    pub fn fmt_with_space(&self, space: &str) -> (out: String)
        ensures
            out@ == self@.render(space@),
    {
        proof {
            reveal_strlit("D");
            reveal_strlit("I");
            reveal_strlit("L");
            reveal_strlit("l");
            reveal_strlit("=");
        }
        match self {
            CcFlag::IncludeDir(path) => {
                let out = dashed("I", space, path.as_str());
                assert(out@ =~= self@.render(space@));
                out
            },
            CcFlag::LibDir(path) => {
                let out = dashed("L", space, path.as_str());
                assert(out@ =~= self@.render(space@));
                out
            },
            CcFlag::Lib(name) => {
                let out = dashed("l", space, name.as_str());
                assert(out@ =~= self@.render(space@));
                out
            },
            CcFlag::Define(name, None) => {
                let out = dashed("D", space, name.as_str());
                assert(out@ =~= self@.render(space@));
                out
            },
            CcFlag::Define(name, Some(value)) => {
                let mut out = dashed("D", space, name.as_str());
                out.append("=");
                out.append(value.as_str());
                assert(out@ =~= self@.render(space@));
                out
            },
            CcFlag::Other(raw) => raw.clone(),
        }
    }
}


impl PartialEq for CcFlag {
    fn eq(&self, other: &CcFlag) -> (equal: bool) {
        match (self, other) {
            (CcFlag::Define(a, None), CcFlag::Define(b, None)) => *a == *b,
            (CcFlag::Define(a, Some(x)), CcFlag::Define(b, Some(y))) => *a == *b && *x == *y,
            (CcFlag::IncludeDir(a), CcFlag::IncludeDir(b)) => *a == *b,
            (CcFlag::LibDir(a), CcFlag::LibDir(b)) => *a == *b,
            (CcFlag::Lib(a), CcFlag::Lib(b)) => *a == *b,
            (CcFlag::Other(a), CcFlag::Other(b)) => *a == *b,
            _ => false,
        }
    }
}

impl Eq for CcFlag {

}

impl vstd::std_specs::cmp::PartialEqSpecImpl for CcFlag {
    open spec fn obeys_eq_spec() -> bool {
        true
    }

    /// Two flags are equal where they are the same variant of the same text.
    open spec fn eq_spec(&self, other: &CcFlag) -> bool {
        self@ == other@
    }
}

/// Displays a flag as `-l iberty`.
///
/// This is the form that a list of separate tokens takes.
pub struct WithSpace<'a>(pub &'a CcFlag);

impl<'a> WithSpace<'a> {
    pub fn to_string(&self) -> (out: String)
        ensures
            out@ == self.0@.spaced(),
    {
        proof {
            reveal_strlit(" ");
            assert(" "@ =~= seq![' ']);
        }
        self.0.fmt_with_space(" ")
    }
}

/// Displays a flag as `-liberty`.
///
/// This form is convenient for producing atomic arguments without fear of
/// quoting issues.
pub struct WithoutSpace<'a>(pub &'a CcFlag);

impl<'a> WithoutSpace<'a> {
    pub fn to_string(&self) -> (out: String)
        ensures
            out@ == self.0@.fused(),
    {
        proof {
            reveal_strlit("");
            assert(""@ =~= Seq::<char>::empty());
        }
        self.0.fmt_with_space("")
    }
}

/// The texts that a sequence of strings holds, in the same order.
pub open spec fn texts(strings: Seq<String>) -> Seq<Seq<char>> {
    Seq::new(strings.len(), |i: int| strings[i]@)
}

/// The atomic argument of each flag, in the flags' order.
pub open spec fn fused_args(flags: Seq<FlagView>) -> Seq<Seq<char>> {
    Seq::new(flags.len(), |i: int| flags[i].fused())
}

/// A list of flags in the order in which they were given. Nothing is
/// deduplicated or sorted: some toolchains care about the order of search paths.
#[derive(Debug, Clone)]
pub struct CcFlags(pub Vec<CcFlag>);

impl View for CcFlags {
    type V = Seq<FlagView>;

    open spec fn view(&self) -> Seq<FlagView> {
        Seq::new(self.0@.len(), |i: int| self.0@[i]@)
    }
}

impl CcFlags {
    /// One atomic argument per flag, in the flags' order.
    pub fn to_args(&self) -> (args: Vec<String>)
        ensures
            texts(args@) == fused_args(self@),
    {
        let mut args: Vec<String> = Vec::new();
        let mut i: usize = 0;
        while i < self.0.len()
            invariant
                i <= self.0@.len(),
                args@.len() == i,
                forall|k: int| 0 <= k < i ==> (#[trigger] args@[k])@ == self.0@[k]@.fused(),
            decreases self.0@.len() - i,
        {
            let arg = WithoutSpace(&self.0[i]).to_string();
            args.push(arg);
            i += 1;
        }
        proof {
            assert(texts(args@) =~= fused_args(self@));
        }
        args
    }
}

/// Spacing of a rendered flag. For a flag with an option letter, the fused text
/// is the dash, the letter and the payload with nothing between them, and the
/// spaced text is the fused text with exactly one space put in after the
/// letter. An unknown argument is rendered as its own text in both forms.
pub proof fn lemma_rendered_spacing(flag: FlagView)
    ensures
        match flag.option_letter() {
            Some(letter) => {
                &&& flag.fused() == seq!['-', letter] + flag.payload()
                &&& flag.fused().skip(2) == flag.payload()
                &&& flag.spaced() == seq!['-', letter, ' '] + flag.payload()
                &&& flag.spaced().skip(3) == flag.payload()
                &&& flag.spaced() == flag.fused().insert(2, ' ')
            },
            None => flag.fused() == flag.payload() && flag.spaced() == flag.payload(),
        },
{
    match flag.option_letter() {
        Some(letter) => {
            assert(flag.fused() =~= seq!['-', letter] + flag.payload());
            assert(flag.fused().skip(2) =~= flag.payload());
            assert(flag.spaced() =~= seq!['-', letter, ' '] + flag.payload());
            assert(flag.spaced().skip(3) =~= flag.payload());
            assert(flag.spaced() =~= flag.fused().insert(2, ' '));
        },
        None => {},
    }
}

/// Order of the arguments. The argument list of a list of flags has one entry
/// per flag, and the entry at each position is the fused text of the flag at
/// that position.
pub proof fn lemma_args_keep_order(flags: Seq<FlagView>, i: int)
    requires
        0 <= i < flags.len(),
    ensures
        fused_args(flags).len() == flags.len(),
        fused_args(flags)[i] == flags[i].fused(),
{
}

} // verus!
