//! Verified core of the Ferrum chat backend: validated domain values,
//! request-body conversion, settings, authorization decisions, route error
//! mapping and the websocket fan-out logic.

pub mod text;
pub mod validation;
pub mod password;
pub mod domain;
pub mod settings;
pub mod jwt;

use vstd::prelude::*;

verus! {

/// The lines that describe the causes of an error, one per cause.
pub open spec fn causes_text(causes: Seq<Seq<char>>) -> Seq<char>
    decreases causes.len(),
{
    if causes.len() == 0 {
        Seq::<char>::empty()
    } else {
        causes_text(causes.drop_last()) + "Caused by:\n\t"@ + causes.last() + "\n"@
    }
}

/// The report of an error: its own message followed by an empty line, then
/// one `Caused by:` entry for each error in its chain of sources.
pub open spec fn error_chain_text(messages: Seq<Seq<char>>) -> Seq<char>
    recommends
        messages.len() >= 1,
{
    messages[0] + "\n\n"@ + causes_text(messages.skip(1))
}

/// Format an error report from the error's message (`messages[0]`) and the
/// messages of its sources, outermost first.
pub fn error_chain_fmt(messages: &Vec<String>) -> (report: String)
    requires
        messages@.len() >= 1,
    ensures
        report@ == error_chain_text(crate::text::texts(messages@)),
{
    let ghost msgs = crate::text::texts(messages@);
    let mut report = messages[0].clone();
    report.append("\n\n");
    let n = messages.len();
    let mut i: usize = 1;
    proof {
        assert(msgs.skip(1).take(0) =~= Seq::<Seq<char>>::empty());
    }
    while i < n
        invariant
            n == messages@.len(),
            1 <= i <= n,
            msgs == crate::text::texts(messages@),
            report@ == msgs[0] + "\n\n"@ + causes_text(msgs.skip(1).take(i - 1)),
        decreases n - i,
    {
        let ghost before = report@;
        report.append("Caused by:\n\t");
        report.append(messages[i].as_str());
        report.append("\n");
        proof {
            let taken = msgs.skip(1).take(i as int);
            assert(taken.drop_last() =~= msgs.skip(1).take(i - 1));
            assert(taken.last() == messages@[i as int]@);
            assert(report@ =~= before + "Caused by:\n\t"@ + messages@[i as int]@ + "\n"@);
        }
        i = i + 1;
    }
    proof {
        assert(msgs.skip(1).take(n - 1) =~= msgs.skip(1));
    }
    report
}

} // verus!
pub mod websocket;
pub mod routes;
