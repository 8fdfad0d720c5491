use crate::common::fnv_store::{map_insert, map_len, map_new, map_remove};
use crate::tracer::color::BGRA;
use crate::tracer::image::Image;
use crate::tracer::tilekey::{lemma_code_injective, TileKey};
use fnv::FnvHashMap;
use std::sync::mpsc::{Receiver, Sender};
use vstd::prelude::*;

verus! {

/// `std::sync::mpsc::Sender`, the sending end of a channel. Nothing is said
/// of its inside.
#[verifier::external_type_specification]
#[verifier::external_body]
#[verifier::reject_recursive_types(T)]
pub struct ExSender<T>(Sender<T>);

/// `std::sync::mpsc::Receiver`, the receiving end of a channel. Nothing is
/// said of its inside.
#[verifier::external_type_specification]
#[verifier::external_body]
#[verifier::reject_recursive_types(T)]
pub struct ExReceiver<T>(Receiver<T>);

/// A key together with the image that a worker rendered for it.
pub type DoneItem = (TileKey, Image<BGRA>);

/// Calls `Sender::send` and tells whether the channel took the key. Whether
/// it does depends on the receiving end being alive, so nothing is promised.
#[verifier::external_body]
fn channel_send(to_work: &Sender<TileKey>, key: TileKey) -> (taken: bool) {
    to_work.send(key).is_ok()
}

/// Calls `Receiver::try_recv`, which never waits: an item if one is ready,
/// else nothing. What is ready depends on the workers, so nothing is
/// promised.
#[verifier::external_body]
fn channel_poll(from_work: &Receiver<DoneItem>) -> (item: Option<DoneItem>) {
    from_work.try_recv().ok()
}

/// Calls `num_cpus::get`, the number of processors that this process may
/// use. It depends on the machine, so nothing is promised.
#[verifier::external_body]
fn available_cores() -> (cores: usize) {
    num_cpus::get()
}

/// How many worker threads to start on a machine with `cores` processors:
/// one less than there are processors, to leave one to the caller, but no
/// fewer than one.
pub fn render_threads_for(cores: usize) -> (threads: usize)
    ensures
        threads == if cores >= 2 {
            cores - 1
        } else {
            1
        },
{
    if cores >= 2 {
        cores - 1
    } else {
        1
    }
}

/// An outbox after the items of `delivered` were put into it, one after the
/// other: a later image for a key replaces an earlier one.
pub open spec fn delivered_into(
    outbox: Map<TileKey, Image<BGRA>>,
    delivered: Seq<DoneItem>,
) -> Map<TileKey, Image<BGRA>>
    decreases delivered.len(),
{
    if delivered.len() == 0 {
        outbox
    } else {
        delivered_into(outbox, delivered.drop_last()).insert(
            delivered.last().0,
            delivered.last().1,
        )
    }
}

/// What lies in the outbox stays there when more is delivered, though its
/// image may be replaced by a later one.
pub proof fn lemma_delivered_keeps(
    outbox: Map<TileKey, Image<BGRA>>,
    delivered: Seq<DoneItem>,
    key: TileKey,
)
    requires
        outbox.contains_key(key),
    ensures
        delivered_into(outbox, delivered).contains_key(key),
    decreases delivered.len(),
{
    if delivered.len() > 0 {
        lemma_delivered_keeps(outbox, delivered.drop_last(), key);
    }
}

/// The dispatcher's side of the worker pool: it hands keys to the workers
/// and collects the images they send back.
pub struct Bakery {
    to_work: Sender<TileKey>,
    from_work: Receiver<DoneItem>,
    outbox: FnvHashMap<u128, Image<BGRA>>,
    num_baking: u32,
    jobs: Ghost<Seq<TileKey>>,
}

impl Bakery {
    /// The images that have come back and were not yet asked for, by key.
    pub closed spec fn outbox(&self) -> Map<TileKey, Image<BGRA>> {
        Map::new(
            |k: TileKey| self.outbox@.contains_key(k.code()),
            |k: TileKey| self.outbox@[k.code()],
        )
    }

    /// How many keys were handed out whose image has not come back.
    pub closed spec fn spec_num_baking(&self) -> nat {
        self.num_baking as nat
    }

    /// Every key that was ever handed to the workers, in order.
    pub closed spec fn jobs(&self) -> Seq<TileKey> {
        self.jobs@
    }

    /// What holds of every bakery: the outbox holds finitely many images.
    pub closed spec fn wf(&self) -> bool {
        &&& self.outbox@.dom().finite()
        &&& self.outbox().dom().finite()
        &&& self.outbox@.len() == self.outbox().len()
    }

    /// A bakery on the two channel ends that lead to the workers and back.
    /// Nothing has been handed out and nothing has come back.
    pub fn new(to_work: Sender<TileKey>, from_work: Receiver<DoneItem>) -> (b: Self)
        ensures
            b.wf(),
            b.outbox() == Map::<TileKey, Image<BGRA>>::empty(),
            b.spec_num_baking() == 0,
            b.jobs() == Seq::<TileKey>::empty(),
    {
        let b = Bakery {
            to_work,
            from_work,
            outbox: map_new(),
            num_baking: 0,
            jobs: Ghost(Seq::empty()),
        };
        proof {
            assert(b.outbox() =~= Map::<TileKey, Image<BGRA>>::empty());
            assert(b.outbox@ =~= Map::<u128, Image<BGRA>>::empty());
        }
        b
    }

    /// Hands `key` to the workers and counts it as baking. The result tells
    /// whether the channel took it; where it did not, no worker is left and
    /// the image will never come.
    pub fn send(&mut self, tilekey: TileKey) -> (taken: bool)
        ensures
            old(self).wf() ==> final(self).wf(),
            final(self).jobs() == old(self).jobs().push(tilekey),
            final(self).outbox() == old(self).outbox(),
            final(self).spec_num_baking() == if old(self).spec_num_baking() < u32::MAX {
                old(self).spec_num_baking() + 1
            } else {
                old(self).spec_num_baking()
            },
    {
        if self.num_baking < u32::MAX {
            self.num_baking += 1;
        }
        self.jobs = Ghost(self.jobs@.push(tilekey));
        proof {
            assert(self.outbox() =~= old(self).outbox());
        }
        channel_send(&self.to_work, tilekey)
    }

    /// Puts one finished item into the outbox and counts one bake less.
    pub fn deliver(&mut self, item: DoneItem)
        requires
            old(self).spec_num_baking() > 0,
        ensures
            old(self).wf() ==> final(self).wf(),
            final(self).outbox() == old(self).outbox().insert(item.0, item.1),
            final(self).spec_num_baking() == old(self).spec_num_baking() - 1,
            final(self).jobs() == old(self).jobs(),
    {
        self.num_baking -= 1;
        let code = item.0.encode();
        let _ = map_insert(&mut self.outbox, code, item.1);
        proof {
            assert forall|k: TileKey| #[trigger] k.code() == item.0.code() implies k == item.0 by {
                lemma_code_injective(k, item.0);
            }
            assert(self.outbox() =~= old(self).outbox().insert(item.0, item.1));
        }
    }

    /// Takes the image for `tilekey` out of the outbox, if it is there.
    pub fn take(&mut self, tilekey: TileKey) -> (img: Option<Image<BGRA>>)
        ensures
            old(self).wf() ==> final(self).wf(),
            img == if old(self).outbox().contains_key(tilekey) {
                Some(old(self).outbox()[tilekey])
            } else {
                None
            },
            final(self).outbox() == old(self).outbox().remove(tilekey),
            final(self).spec_num_baking() == old(self).spec_num_baking(),
            final(self).jobs() == old(self).jobs(),
    {
        let code = tilekey.encode();
        let img = map_remove(&mut self.outbox, code);
        proof {
            assert forall|k: TileKey| #[trigger] k.code() == tilekey.code() implies k
                == tilekey by {
                lemma_code_injective(k, tilekey);
            }
            assert(self.outbox() =~= old(self).outbox().remove(tilekey));
        }
        img
    }

    /// The image for `tilekey` if it is ready, without waiting. First every
    /// item that the workers have finished is moved into the outbox, at most
    /// as many as there are bakes outstanding; then the image for `tilekey`
    /// is taken out of the outbox, if it is there.
    pub fn try_recv(&mut self, tilekey: TileKey) -> (img: Option<Image<BGRA>>)
        ensures
            old(self).wf() ==> final(self).wf(),
            final(self).jobs() == old(self).jobs(),
            exists|delivered: Seq<DoneItem>|
                {
                    let filled = #[trigger] delivered_into(old(self).outbox(), delivered);
                    &&& delivered.len() <= old(self).spec_num_baking()
                    &&& final(self).spec_num_baking() == old(self).spec_num_baking()
                        - delivered.len()
                    &&& img == if filled.contains_key(tilekey) {
                        Some(filled[tilekey])
                    } else {
                        None
                    }
                    &&& final(self).outbox() == filled.remove(tilekey)
                },
    {
        let ghost mut delivered: Seq<DoneItem> = Seq::empty();
        while self.num_baking > 0
            invariant
                old(self).wf() ==> self.wf(),
                self.jobs() == old(self).jobs(),
                delivered.len() <= old(self).spec_num_baking(),
                self.spec_num_baking() == old(self).spec_num_baking() - delivered.len(),
                self.outbox() == delivered_into(old(self).outbox(), delivered),
            decreases self.num_baking,
        {
            match channel_poll(&self.from_work) {
                Some(item) => {
                    proof {
                        let next = delivered.push(item);
                        assert(next.drop_last() =~= delivered);
                        delivered = next;
                    }
                    self.deliver(item);
                },
                None => {
                    break ;
                },
            }
        }
        self.take(tilekey)
    }

    /// How many worker threads to start on this machine: at least one.
    pub fn num_render_threads() -> (threads: usize)
        ensures
            threads >= 1,
    {
        render_threads_for(available_cores())
    }

    /// How many keys were handed out whose image has not come back.
    pub fn num_baking(&self) -> (n: u32)
        ensures
            n == self.spec_num_baking(),
    {
        self.num_baking
    }

    /// How many images wait in the outbox.
    pub fn outbox_len(&self) -> (n: usize)
        requires
            self.wf(),
        ensures
            n == self.outbox().len(),
    {
        map_len(&self.outbox)
    }
}

} // verus!
