//! What bounds a publication chain.
//!
//! A depth limit on the chain, enforced where the chain is built, so that a
//! runtime cannot extend one past its ceiling by any path. The limit is not
//! cycle detection: it cannot tell a loop from a long legitimate chain, which is
//! why a refusal names the Subscription and the Process at the point of refusal.

use vstd::prelude::*;

use crate::ids::{journey_id_text, JourneyId};
use crate::text::{decimal, push_decimal};

verus! {

/// How deep a publication chain may run.
///
/// Depth counts links, not Journeys: a Journey that nothing caused is at depth
/// zero, the one it publishes into is at one, and a limit of `n` permits `n`
/// links and refuses the one after.
#[derive(Clone, Copy, Debug, PartialEq, Eq, Structural)]
pub struct ChainLimit(u32);

impl View for ChainLimit {
    type V = u32;

    /// The ceiling, in links.
    closed spec fn view(&self) -> u32 {
        self.0
    }
}

impl ChainLimit {
    /// The number of links a node permits when its configuration names none.
    ///
    /// A starting point rather than a finding: far above any chain anyone has
    /// described and far below the depth at which a loop becomes expensive.
    pub const DEFAULT_LINKS: u32 = 32;

    /// A limit is its number of links: two limits are the same limit
    /// exactly when they permit the same number of links.
    pub proof fn lemma_limit_is_its_links(a: Self, b: Self)
        ensures
            (a == b) <==> (a@ == b@),
    {
    }

    /// A ceiling of this many links.
    #[must_use]
    pub fn new(links: u32) -> (limit: Self)
        ensures
            limit@ == links,
    {
        Self(links)
    }

    /// The ceiling, as a number.
    #[must_use]
    pub fn links(self) -> (links: u32)
        ensures
            links == self@,
    {
        self.0
    }

    /// A chain already this deep may gain one more link.
    pub open spec fn allows(self, depth: u32) -> bool {
        depth < self@
    }

    /// Whether a chain already this deep may gain one more link.
    #[must_use]
    pub fn permits(self, depth: u32) -> (permitted: bool)
        ensures
            permitted == self.allows(depth),
    {
        depth < self.0
    }

    /// A limit of `n` permits `n` links and refuses the one after: every
    /// depth below `n` may gain a link, depth `n` and beyond may not. A limit
    /// of zero permits no link at all.
    pub proof fn lemma_permits_its_links_and_refuses_the_next(self)
        ensures
            forall|depth: u32| depth < self@ ==> #[trigger] self.allows(depth),
            forall|depth: u32| self@ <= depth ==> !#[trigger] self.allows(depth),
            self@ == 0 ==> forall|depth: u32| !#[trigger] self.allows(depth),
    {
    }

    /// A chain grown under this limit is refused at exactly the limit: where
    /// the depth already reached is within the limit, the only depth at which
    /// a further link is refused is the limit itself.
    pub proof fn lemma_refused_only_at_the_limit(self, depth: u32)
        requires
            depth <= self@,
        ensures
            !self.allows(depth) <==> depth == self@,
    {
    }
}

impl Default for ChainLimit {
    /// The ceiling a node uses when its configuration names none.
    fn default() -> (limit: Self)
        ensures
            limit@ == Self::DEFAULT_LINKS,
    {
        Self(Self::DEFAULT_LINKS)
    }
}

/// Why one Journey caused another.
///
/// The Subscription that matched, and the Xmip Process it started where it
/// started one. Both halves are what an operator needs to see a loop, and
/// neither is recoverable from a Journey id.
#[derive(Clone, Debug, PartialEq, Eq)]
pub struct ChainCause {
    pub subscription_id: String,
    pub xmip_process: Option<String>,
}

/// The text of an optional name.
pub open spec fn optional_text(name: Option<String>) -> Option<Seq<char>> {
    match name {
        Some(text) => Some(text@),
        None => None,
    }
}

/// How a cause reads: the Subscription, and the Xmip Process it started where
/// it started one.
pub open spec fn cause_text(subscription_id: Seq<char>, xmip_process: Option<Seq<char>>) -> Seq<char> {
    match xmip_process {
        Some(process) => "Subscription '"@ + subscription_id + "' starting Xmip Process '"@ + process
            + "'"@,
        None => "Subscription '"@ + subscription_id + "'"@,
    }
}

/// A cause's text names the Subscription, and the Process where there is one,
/// in full and unchanged: the Subscription id stands right after the opening
/// `Subscription '` (fourteen characters); with no Process a closing quote is
/// all that follows it, and with a Process the name stands right after the
/// twenty-five characters of `' starting Xmip Process '`, followed only by a
/// closing quote.
pub proof fn lemma_cause_text_names_the_pair(subscription_id: Seq<char>, xmip_process: Option<Seq<char>>)
    ensures
        ({
            let text = cause_text(subscription_id, xmip_process);
            let n = subscription_id.len() as int;
            &&& text.subrange(0, 14) == "Subscription '"@
            &&& text.subrange(14, 14 + n) == subscription_id
            &&& xmip_process is None ==> text.len() == n + 15 && text[14 + n] == '\''
            &&& xmip_process matches Some(process) ==> {
                let m = process.len() as int;
                &&& text.len() == n + m + 40
                &&& text.subrange(14 + n, 39 + n) == "' starting Xmip Process '"@
                &&& text.subrange(39 + n, 39 + n + m) == process
                &&& text[39 + n + m] == '\''
            }
        }),
{
    reveal_strlit("Subscription '");
    reveal_strlit("' starting Xmip Process '");
    reveal_strlit("'");
    let text = cause_text(subscription_id, xmip_process);
    let n = subscription_id.len() as int;
    assert(text.subrange(0, 14) =~= "Subscription '"@);
    assert(text.subrange(14, 14 + n) =~= subscription_id);
    if let Some(process) = xmip_process {
        let m = process.len() as int;
        assert(text.subrange(14 + n, 39 + n) =~= "' starting Xmip Process '"@);
        assert(text.subrange(39 + n, 39 + n + m) =~= process);
    }
}

impl ChainCause {
    /// The text of this cause, as `to_string` writes it.
    pub open spec fn text(self) -> Seq<char> {
        cause_text(self.subscription_id@, optional_text(self.xmip_process))
    }

    /// A Subscription that matched and started nothing but a delivery.
    #[must_use]
    pub fn subscription(subscription_id: &str) -> (cause: Self)
        ensures
            cause.subscription_id@ == subscription_id@,
            cause.xmip_process is None,
    {
        Self { subscription_id: subscription_id.to_owned(), xmip_process: None }
    }

    /// A Subscription that matched and started an Xmip Process.
    #[must_use]
    pub fn process(subscription_id: &str, xmip_process: &str) -> (cause: Self)
        ensures
            cause.subscription_id@ == subscription_id@,
            optional_text(cause.xmip_process) == Some(xmip_process@),
    {
        Self {
            subscription_id: subscription_id.to_owned(),
            xmip_process: Some(xmip_process.to_owned()),
        }
    }

    /// Appends the text of this cause to `out`.
    fn write_to(&self, out: &mut String)
        ensures
            final(out)@ == old(out)@ + self.text(),
    {
        out.append("Subscription '");
        out.append(self.subscription_id.as_str());
        match &self.xmip_process {
            Some(process) => {
                out.append("' starting Xmip Process '");
                out.append(process.as_str());
                out.append("'");
            },
            None => {
                out.append("'");
            },
        }
    }

    /// The cause as an operator reads it, such as
    /// `Subscription 'billing' starting Xmip Process 'Approval'`.
    pub fn to_string(&self) -> (text: String)
        ensures
            text@ == self.text(),
            self.xmip_process matches Some(process) ==> text@ == "Subscription '"@
                + self.subscription_id@ + "' starting Xmip Process '"@ + process@ + "'"@,
            self.xmip_process is None ==> text@ == "Subscription '"@ + self.subscription_id@
                + "'"@,
    {
        let mut text = String::new();
        self.write_to(&mut text);
        text
    }
}

/// A publication chain that reached its limit, and what was at the end of it.
///
/// Returned rather than thrown away: the Message is not lost by refusing to
/// extend the chain, and what happens to it is a disposition like any other.
#[derive(Clone, Debug, PartialEq, Eq)]
pub struct ChainRefused {
    /// The ceiling in force when the chain was refused.
    pub limit: ChainLimit,
    /// The depth already reached. Equal to the limit, by construction.
    pub depth: u32,
    /// The Journey that would have caused the refused one.
    pub previous_journey_id: JourneyId,
    /// The Subscription and Process that would have formed the next link.
    pub cause: ChainCause,
}

impl ChainRefused {
    /// The text of this refusal, as `to_string` writes it.
    pub open spec fn text(self) -> Seq<char> {
        "publication chain refused at depth "@ + decimal(self.depth as nat) + " of "@
            + decimal(self.limit@ as nat) + ": "@ + self.cause.text() + " would extend Journey "@
            + journey_id_text(self.previous_journey_id@)
    }

    /// The refusal as an operator reads it: the depth and the ceiling, the
    /// pair that would have formed the next link, and the Journey it would
    /// have extended.
    pub fn to_string(&self) -> (text: String)
        ensures
            text@ == self.text(),
            text@ == "publication chain refused at depth "@ + decimal(self.depth as nat) + " of "@
                + decimal(self.limit@ as nat) + ": "@ + self.cause.text()
                + " would extend Journey "@ + journey_id_text(self.previous_journey_id@),
    {
        let mut text = "publication chain refused at depth ".to_owned();
        push_decimal(&mut text, self.depth as u128);
        text.append(" of ");
        push_decimal(&mut text, self.limit.links() as u128);
        text.append(": ");
        self.cause.write_to(&mut text);
        text.append(" would extend Journey ");
        let id = self.previous_journey_id.to_debug_string();
        text.append(id.as_str());
        text
    }
}

} // verus!
