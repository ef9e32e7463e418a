use vstd::prelude::*;

verus! {

/// Largest number of arguments that a single system call takes.
pub const MAX_ARGS: usize = 6;

/// The argument words of one system call, held at a fixed arity of at most six.
/// The type itself rules out a seventh argument.
#[derive(Clone, Copy, Debug, PartialEq, Eq, Structural)]
pub enum SyscallArgs {
    Zero,
    One(usize),
    Two(usize, usize),
    Three(usize, usize, usize),
    Four(usize, usize, usize, usize),
    Five(usize, usize, usize, usize, usize),
    Six(usize, usize, usize, usize, usize, usize),
}

impl View for SyscallArgs {
    type V = Seq<usize>;

    /// The argument words in the order they are passed.
    open spec fn view(&self) -> Seq<usize> {
        match *self {
            SyscallArgs::Zero => seq![],
            SyscallArgs::One(a) => seq![a],
            SyscallArgs::Two(a, b) => seq![a, b],
            SyscallArgs::Three(a, b, c) => seq![a, b, c],
            SyscallArgs::Four(a, b, c, d) => seq![a, b, c, d],
            SyscallArgs::Five(a, b, c, d, e) => seq![a, b, c, d, e],
            SyscallArgs::Six(a, b, c, d, e, f) => seq![a, b, c, d, e, f],
        }
    }
}

/// The fixed-arity arguments that a list of words is routed to, or `None` when
/// the list holds more than six words.
pub open spec fn args_of(a: Seq<usize>) -> Option<SyscallArgs> {
    if a.len() == 0 {
        Some(SyscallArgs::Zero)
    } else if a.len() == 1 {
        Some(SyscallArgs::One(a[0]))
    } else if a.len() == 2 {
        Some(SyscallArgs::Two(a[0], a[1]))
    } else if a.len() == 3 {
        Some(SyscallArgs::Three(a[0], a[1], a[2]))
    } else if a.len() == 4 {
        Some(SyscallArgs::Four(a[0], a[1], a[2], a[3]))
    } else if a.len() == 5 {
        Some(SyscallArgs::Five(a[0], a[1], a[2], a[3], a[4]))
    } else if a.len() == 6 {
        Some(SyscallArgs::Six(a[0], a[1], a[2], a[3], a[4], a[5]))
    } else {
        None
    }
}

impl SyscallArgs {
    /// Routes a list of argument words to the fixed arity of its length. A list
    /// of more than six words is refused with `None`.
    pub fn from_slice(a: &[usize]) -> (r: Option<SyscallArgs>)
        ensures
            r == args_of(a@),
            r is None <==> a@.len() > MAX_ARGS,
            r matches Some(x) ==> x@ == a@,
    {
        let n = a.len();
        if n == 0 {
            Some(SyscallArgs::Zero)
        } else if n == 1 {
            Some(SyscallArgs::One(a[0]))
        } else if n == 2 {
            Some(SyscallArgs::Two(a[0], a[1]))
        } else if n == 3 {
            Some(SyscallArgs::Three(a[0], a[1], a[2]))
        } else if n == 4 {
            Some(SyscallArgs::Four(a[0], a[1], a[2], a[3]))
        } else if n == 5 {
            Some(SyscallArgs::Five(a[0], a[1], a[2], a[3], a[4]))
        } else if n == 6 {
            Some(SyscallArgs::Six(a[0], a[1], a[2], a[3], a[4], a[5]))
        } else {
            None
        }
    }

    /// Number of argument words.
    pub fn arity(&self) -> (n: usize)
        ensures
            n == self@.len(),
            n <= MAX_ARGS,
    {
        match *self {
            SyscallArgs::Zero => 0,
            SyscallArgs::One(..) => 1,
            SyscallArgs::Two(..) => 2,
            SyscallArgs::Three(..) => 3,
            SyscallArgs::Four(..) => 4,
            SyscallArgs::Five(..) => 5,
            SyscallArgs::Six(..) => 6,
        }
    }

    /// The argument words in the order they are passed.
    pub fn words(&self) -> (v: Vec<usize>)
        ensures
            v@ == self@,
    {
        match *self {
            SyscallArgs::Zero => vec![],
            SyscallArgs::One(a) => vec![a],
            SyscallArgs::Two(a, b) => vec![a, b],
            SyscallArgs::Three(a, b, c) => vec![a, b, c],
            SyscallArgs::Four(a, b, c, d) => vec![a, b, c, d],
            SyscallArgs::Five(a, b, c, d, e) => vec![a, b, c, d, e],
            SyscallArgs::Six(a, b, c, d, e, f) => vec![a, b, c, d, e, f],
        }
    }
}

/// Arguments are determined by their words: two fixed-arity argument values that
/// pass the same words in the same order are the same value, and routing those
/// words by their count gives that value back.
pub proof fn lemma_args_determined_by_words(x: SyscallArgs, y: SyscallArgs)
    requires
        x@ == y@,
    ensures
        x == y,
        args_of(x@) == Some(x),
{
    assert(x@.len() == y@.len());
    match x {
        SyscallArgs::Zero => {},
        SyscallArgs::One(a) => {
            assert(x@[0] == a);
        },
        SyscallArgs::Two(a, b) => {
            assert(x@[0] == a && x@[1] == b);
        },
        SyscallArgs::Three(a, b, c) => {
            assert(x@[0] == a && x@[1] == b && x@[2] == c);
        },
        SyscallArgs::Four(a, b, c, d) => {
            assert(x@[0] == a && x@[1] == b && x@[2] == c && x@[3] == d);
        },
        SyscallArgs::Five(a, b, c, d, e) => {
            assert(x@[0] == a && x@[1] == b && x@[2] == c && x@[3] == d && x@[4] == e);
        },
        SyscallArgs::Six(a, b, c, d, e, f) => {
            assert(x@[0] == a && x@[1] == b && x@[2] == c && x@[3] == d && x@[4] == e
                && x@[5] == f);
        },
    }
}

} // verus!
