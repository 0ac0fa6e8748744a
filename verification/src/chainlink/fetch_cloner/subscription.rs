//! Subscriptions that are taken and given back.
use vstd::prelude::*;
use crate::account::SubscriptionReason;
use crate::pubkey::Pubkey;

verus! {

/// A reason for a subscription that holds no longer.
#[derive(Clone, Copy, Debug, PartialEq, Eq)]
pub struct SubscriptionRelease {
    pub pubkey: Pubkey,
    pub reason: SubscriptionReason,
}

/// The releases of one reason for each of the addresses.
pub open spec fn released(pubkeys: Seq<Pubkey>, reason: SubscriptionReason) -> Seq<
    SubscriptionRelease,
> {
    pubkeys.map_values(|pubkey: Pubkey| SubscriptionRelease { pubkey, reason })
}

/// Adds the releases of one reason for each of the addresses.
pub fn append_releases(
    releases: &mut Vec<SubscriptionRelease>,
    pubkeys: &Vec<Pubkey>,
    reason: SubscriptionReason,
)
    ensures
        final(releases)@ == old(releases)@ + released(pubkeys@, reason),
{
    let ghost before = releases@;
    let mut i: usize = 0;
    assert(releases@ =~= before + released(pubkeys@.take(0), reason));
    while i < pubkeys.len()
        invariant
            i <= pubkeys.len(),
            releases@ == before + released(pubkeys@.take(i as int), reason),
        decreases pubkeys.len() - i,
    {
        releases.push(SubscriptionRelease { pubkey: pubkeys[i], reason });
        i = i + 1;
        assert(releases@ =~= before + released(pubkeys@.take(i as int), reason));
    }
    assert(pubkeys@.take(pubkeys@.len() as int) =~= pubkeys@);
}

/// Subscriptions that are taken one after the other. If one cannot be had, those that were had
/// are given back.
#[derive(Debug)]
pub struct Acquisition {
    pubkeys: Vec<Pubkey>,
    reason: SubscriptionReason,
    acquired: usize,
}

impl Acquisition {
    /// The addresses to subscribe to.
    pub closed spec fn wanted(&self) -> Seq<Pubkey> {
        self.pubkeys@
    }

    /// Why.
    pub closed spec fn reason(&self) -> SubscriptionReason {
        self.reason
    }

    /// Those that were had.
    pub closed spec fn had(&self) -> Seq<Pubkey> {
        self.pubkeys@.take(self.acquired as int)
    }

    pub closed spec fn wf(&self) -> bool {
        self.acquired <= self.pubkeys.len()
    }

    /// Nothing was had yet.
    pub fn new(pubkeys: Vec<Pubkey>, reason: SubscriptionReason) -> (r: Acquisition)
        ensures
            r.wf(),
            r.wanted() == pubkeys@,
            r.reason() == reason,
            r.had() == Seq::<Pubkey>::empty(),
    {
        let r = Acquisition { pubkeys, reason, acquired: 0 };
        assert(r.had() =~= Seq::<Pubkey>::empty());
        r
    }

    /// The next one to take; none once all were had.
    pub fn next(&self) -> (r: Option<Pubkey>)
        requires
            self.wf(),
        ensures
            r is None <==> self.had() == self.wanted(),
            r matches Some(pubkey) ==> self.had().push(pubkey) == self.wanted().take(
                self.had().len() as int + 1,
            ),
    {
        if self.acquired < self.pubkeys.len() {
            let pubkey = self.pubkeys[self.acquired];
            assert(self.had().len() < self.wanted().len());
            assert(self.had().push(pubkey) =~= self.wanted().take(self.had().len() as int + 1));
            Some(pubkey)
        } else {
            assert(self.had() =~= self.wanted());
            None
        }
    }

    /// Notes that the next one was had.
    pub fn succeeded(&mut self)
        requires
            old(self).wf(),
            old(self).had() != old(self).wanted(),
        ensures
            final(self).wf(),
            final(self).wanted() == old(self).wanted(),
            final(self).reason() == old(self).reason(),
            final(self).had() == old(self).wanted().take(old(self).had().len() as int + 1),
    {
        proof {
            if self.acquired == self.pubkeys@.len() {
                assert(self.had() =~= self.wanted());
            }
        }
        self.acquired = self.acquired + 1;
    }

    /// What has to be given back because the next one could not be had: exactly what was had.
    pub fn rollback(&self) -> (r: Vec<SubscriptionRelease>)
        requires
            self.wf(),
        ensures
            r@ == released(self.had(), self.reason()),
    {
        let mut releases: Vec<SubscriptionRelease> = Vec::new();
        let mut i: usize = 0;
        while i < self.acquired
            invariant
                i <= self.acquired,
                self.wf(),
                releases@.len() == i,
                forall|j: int|
                    0 <= j < i ==> releases@[j] == (SubscriptionRelease {
                        pubkey: self.pubkeys@[j],
                        reason: self.reason,
                    }),
            decreases self.acquired - i,
        {
            releases.push(SubscriptionRelease { pubkey: self.pubkeys[i], reason: self.reason });
            i = i + 1;
        }
        assert(releases@ =~= released(self.had(), self.reason()));
        releases
    }
}

/// What is given back once a program's code is no longer needed.
pub fn program_data_releases(program_data_pubkey: Pubkey) -> (r: Vec<SubscriptionRelease>)
    ensures
        r@ == seq![
            SubscriptionRelease {
                pubkey: program_data_pubkey,
                reason: SubscriptionReason::DirectAccount,
            },
            SubscriptionRelease {
                pubkey: program_data_pubkey,
                reason: SubscriptionReason::ProgramData,
            },
        ],
{
    let mut releases: Vec<SubscriptionRelease> = Vec::new();
    releases.push(
        SubscriptionRelease {
            pubkey: program_data_pubkey,
            reason: SubscriptionReason::DirectAccount,
        },
    );
    releases.push(
        SubscriptionRelease {
            pubkey: program_data_pubkey,
            reason: SubscriptionReason::ProgramData,
        },
    );
    releases
}

} // verus!
