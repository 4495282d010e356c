//! What a command-line invocation decides to do, from its arguments
//! alone. The surrounding application performs the chosen action; the
//! decisions — which command, which joined query or text, which misuse —
//! are made and verified here.

use vstd::prelude::*;

use crate::json::{lemma_join_sep_push, spec_join_sep};
use crate::models::RetrieveResponse;

verus! {

/// What one invocation should do. `Recall` and `Ingest` carry the
/// remaining arguments joined by single spaces; the `Missing*` outcomes
/// and `Unknown` are misuses that exit unsuccessfully.
pub enum CliCommand {
    /// No command given: print the usage text and exit successfully.
    Usage,
    /// Retrieve memories for the joined query.
    Recall(String),
    /// Ingest the joined text as a new memory.
    Ingest(String),
    /// Print the configuration banner; no network call.
    Status,
    /// An unrecognized command word.
    Unknown(String),
    /// `recall` with no query words.
    MissingQuery,
    /// `ingest` with no text words.
    MissingText,
}

/// Mathematical model of a [`CliCommand`].
pub enum CliCommandV {
    Usage,
    Recall(Seq<char>),
    Ingest(Seq<char>),
    Status,
    Unknown(Seq<char>),
    MissingQuery,
    MissingText,
}

impl View for CliCommand {
    type V = CliCommandV;

    open spec fn view(&self) -> CliCommandV {
        match self {
            CliCommand::Usage => CliCommandV::Usage,
            CliCommand::Recall(q) => CliCommandV::Recall(q@),
            CliCommand::Ingest(t) => CliCommandV::Ingest(t@),
            CliCommand::Status => CliCommandV::Status,
            CliCommand::Unknown(c) => CliCommandV::Unknown(c@),
            CliCommand::MissingQuery => CliCommandV::MissingQuery,
            CliCommand::MissingText => CliCommandV::MissingText,
        }
    }
}

/// The words joined by single spaces.
pub open spec fn spec_join_words(words: Seq<Seq<char>>) -> Seq<char> {
    spec_join_sep(words, ' ')
}

/// What the invocation `args` (program name first) decides: no command
/// means usage; `recall` and `ingest` need at least one further word,
/// which are joined by spaces; `status` echoes configuration; anything
/// else is unknown.
pub open spec fn spec_dispatch(args: Seq<Seq<char>>) -> CliCommandV {
    if args.len() < 2 {
        CliCommandV::Usage
    } else if args[1] == "recall"@ {
        if args.len() < 3 {
            CliCommandV::MissingQuery
        } else {
            CliCommandV::Recall(spec_join_words(args.skip(2)))
        }
    } else if args[1] == "ingest"@ {
        if args.len() < 3 {
            CliCommandV::MissingText
        } else {
            CliCommandV::Ingest(spec_join_words(args.skip(2)))
        }
    } else if args[1] == "status"@ {
        CliCommandV::Status
    } else {
        CliCommandV::Unknown(args[1])
    }
}

/// Joins `args[start..]` with single spaces.
fn join_words(args: &Vec<String>, start: usize) -> (r: String)
    requires
        start <= args@.len(),
    ensures
        r@ == spec_join_words(args.deep_view().skip(start as int)),
{
    let ghost dv = args.deep_view();
    let mut out = String::new();
    let n = args.len();
    let mut i: usize = start;
    proof {
        assert(dv.subrange(start as int, start as int) =~= Seq::<Seq<char>>::empty());
    }
    while i < n
        invariant
            start <= i <= n,
            n == args@.len(),
            dv == args.deep_view(),
            dv.len() == n,
            out@ == spec_join_sep(dv.subrange(start as int, i as int), ' '),
        decreases n - i,
    {
        proof {
            assert(dv.subrange(start as int, i as int + 1) =~= dv.subrange(
                start as int,
                i as int,
            ).push(dv[i as int]));
            lemma_join_sep_push(dv.subrange(start as int, i as int), dv[i as int], ' ');
            assert(dv[i as int] == args@[i as int]@);
        }
        if i > start {
            crate::text::push_char(&mut out, ' ');
        }
        out.append(args[i].as_str());
        proof {
            assert(out@ =~= spec_join_sep(dv.subrange(start as int, i as int + 1), ' '));
        }
        i = i + 1;
    }
    proof {
        assert(dv.subrange(start as int, n as int) =~= dv.skip(start as int));
    }
    out
}

/// Decides what the invocation `args` (program name first) should do.
pub fn dispatch(args: &Vec<String>) -> (r: CliCommand)
    ensures
        r@ == spec_dispatch(args.deep_view()),
{
    let ghost dv = args.deep_view();
    if args.len() < 2 {
        return CliCommand::Usage;
    }
    proof {
        assert(dv[1] == args@[1]@);
    }
    let recall_word = String::from_str("recall");
    let ingest_word = String::from_str("ingest");
    let status_word = String::from_str("status");
    if args[1] == recall_word {
        if args.len() < 3 {
            CliCommand::MissingQuery
        } else {
            CliCommand::Recall(join_words(args, 2))
        }
    } else if args[1] == ingest_word {
        if args.len() < 3 {
            CliCommand::MissingText
        } else {
            CliCommand::Ingest(join_words(args, 2))
        }
    } else if args[1] == status_word {
        CliCommand::Status
    } else {
        CliCommand::Unknown(args[1].clone())
    }
}

/// The answer line that `recall` prints: the synthesized answer, or the
/// `No response` placeholder when the service sent none.
pub fn recall_answer_line(resp: &RetrieveResponse) -> (r: String)
    ensures
        r@ == "Answer: "@ + match resp@.answer {
            Some(a) => a,
            None => "No response"@,
        },
{
    let mut out = String::from_str("Answer: ");
    match &resp.answer {
        Some(a) => out.append(a.as_str()),
        None => out.append("No response"),
    }
    out
}

} // verus!
