use vstd::prelude::*;

verus! {

/// What the wait for a new chain tip brought.
#[derive(Debug)]
pub enum TipEvent {
    /// The service is shutting down.
    Cancelled,
    /// The node answered with a tip.
    TipReported { height: i32, hash: Vec<u8> },
    /// The request or the reading of its answer failed.
    Failed,
}

/// What the monitoring loop does next.
#[derive(Clone, Copy, Debug, PartialEq, Eq, Structural)]
pub enum TipAction {
    /// Leave the loop.
    Stop,
    /// Wait for the next tip change.
    KeepWaiting,
    /// The tip moved up: drop the stored templates, renew the template client and
    /// fetch a template for the new tip, then wait again.
    RenewTemplates,
}

/// The chain tip that the templates are built on.
#[derive(Clone, Debug)]
pub struct TipTracker {
    height: i32,
    hash: Vec<u8>,
}

pub struct TipView {
    pub height: i32,
    pub hash: Seq<u8>,
}

impl View for TipTracker {
    type V = TipView;

    closed spec fn view(&self) -> TipView {
        TipView { height: self.height, hash: self.hash@ }
    }
}

/// The tip after `event` and the action it calls for, from the tip `tip`.
pub open spec fn tip_step(tip: TipView, event: TipEvent) -> (TipView, TipAction) {
    match event {
        TipEvent::Cancelled => (tip, TipAction::Stop),
        TipEvent::Failed => (tip, TipAction::KeepWaiting),
        TipEvent::TipReported { height, hash } => if height > tip.height {
            (TipView { height, hash: hash@ }, TipAction::RenewTemplates)
        } else {
            (tip, TipAction::KeepWaiting)
        },
    }
}

/// Any tip higher than the current one, however far above it, is taken with its
/// hash and renews the templates; a tip that is not higher leaves the tip as it
/// is.
pub proof fn lemma_higher_tip_is_taken(tip: TipView, height: i32, hash: Vec<u8>)
    ensures
        height > tip.height ==> tip_step(tip, TipEvent::TipReported { height, hash })
            == (TipView { height, hash: hash@ }, TipAction::RenewTemplates),
        height <= tip.height ==> tip_step(tip, TipEvent::TipReported { height, hash })
            == (tip, TipAction::KeepWaiting),
{
}

impl TipTracker {
    /// Starts from the tip the node reported first.
    pub fn new(height: i32, hash: Vec<u8>) -> (res: Self)
        ensures
            res@ == (TipView { height, hash: hash@ }),
    {
        TipTracker { height, hash }
    }

    /// The height of the current tip.
    pub fn height(&self) -> (res: i32)
        ensures
            res == self@.height,
    {
        self.height
    }

    /// The hash of the current tip, as the node sent it.
    pub fn hash(&self) -> (res: &Vec<u8>)
        ensures
            res@ == self@.hash,
    {
        &self.hash
    }

    /// Takes in what the wait for a tip change brought. Only a tip higher than the
    /// current one is taken, so the height never goes down.
    pub fn on_event(&mut self, event: TipEvent) -> (action: TipAction)
        ensures
            (final(self)@, action) == tip_step(old(self)@, event),
            final(self)@.height >= old(self)@.height,
            action == TipAction::RenewTemplates <==> final(self)@.height > old(self)@.height,
            event is Cancelled ==> action == TipAction::Stop && final(self)@ == old(self)@,
            event is Failed ==> action == TipAction::KeepWaiting && final(self)@ == old(self)@,
            event matches TipEvent::TipReported { height, hash } ==> if height > old(self)@.height {
                action == TipAction::RenewTemplates && final(self)@ == (TipView { height, hash: hash@ })
            } else {
                action == TipAction::KeepWaiting && final(self)@ == old(self)@
            },
    {
        match event {
            TipEvent::Cancelled => TipAction::Stop,
            TipEvent::Failed => TipAction::KeepWaiting,
            TipEvent::TipReported { height, hash } => {
                // The tip is not updated when the height stays the same.
                if height > self.height {
                    self.height = height;
                    self.hash = hash;
                    TipAction::RenewTemplates
                } else {
                    TipAction::KeepWaiting
                }
            },
        }
    }
}

} // verus!
