//! Short notices shown to the user for a few seconds.

use std::time::Instant;
use vstd::prelude::*;
use vstd::string::StringExecFns;
use crate::clock;

verus! {

/// How long a notice stays, in milliseconds, unless it says otherwise.
pub const DEFAULT_DURATION_MS: u64 = 5000;

#[derive(Debug, Clone, Copy, PartialEq, Eq, Structural)]
pub enum Status {
    Success,
    Error,
    Info,
}

#[derive(Debug, Clone)]
pub struct Toast {
    pub title: String,
    pub body: String,
    pub status: Status,
    pub created_at: Instant,
    /// How long the notice stays, in milliseconds.
    pub duration_ms: u64,
}

impl Toast {
    /// Whether a notice that has been shown for `shown_ms` milliseconds has
    /// had its time.
    pub open spec fn is_expired_after(&self, shown_ms: u128) -> bool {
        shown_ms >= self.duration_ms
    }

    /// A notice created at the moment `at` that stays for five seconds.
    pub fn new_at(status: Status, title: &str, body: &str, at: Instant) -> (toast: Self)
        ensures
            toast.status == status,
            toast.title@ == title@,
            toast.body@ == body@,
            toast.created_at == at,
            toast.duration_ms == DEFAULT_DURATION_MS,
    {
        Self {
            title: String::from_str(title),
            body: String::from_str(body),
            status,
            created_at: at,
            duration_ms: DEFAULT_DURATION_MS,
        }
    }

    /// A notice created now, by the machine's clock, that stays for five
    /// seconds: what [`Toast::new_at`] makes for the moment of the call.
    pub fn new(status: Status, title: &str, body: &str) -> (toast: Self)
        ensures
            toast.status == status,
            toast.title@ == title@,
            toast.body@ == body@,
            toast.duration_ms == DEFAULT_DURATION_MS,
    {
        Self::new_at(status, title, body, clock::now())
    }

    /// How long the notice has been shown, in whole milliseconds.
    pub fn shown_millis(&self) -> u128 {
        clock::millis_since(&self.created_at)
    }

    pub fn expired_after(&self, shown_ms: u128) -> (gone: bool)
        ensures
            gone == self.is_expired_after(shown_ms),
    {
        shown_ms >= self.duration_ms as u128
    }

    /// Whether the notice has had its time by the machine's clock. A notice
    /// that stays for no time at all always has.
    pub fn expired(&self) -> (gone: bool)
        ensures
            self.duration_ms == 0 ==> gone,
    {
        let shown = self.shown_millis();
        self.expired_after(shown)
    }
}

/// The notices that stay when notice `i` has been shown for `shown[i]`
/// milliseconds: those that have not had their time, in their old order. A
/// notice without a reading stays.
pub open spec fn unexpired(toasts: Seq<Toast>, shown: Seq<u128>) -> Seq<Toast>
    decreases toasts.len(),
{
    if toasts.len() == 0 {
        Seq::empty()
    } else {
        let last = toasts.len() - 1;
        let before = unexpired(toasts.drop_last(), shown);
        if last < shown.len() && toasts[last].is_expired_after(shown[last]) {
            before
        } else {
            before.push(toasts[last])
        }
    }
}

/// Taking notices away adds none: what stays is no longer than what was on
/// show, and every notice that stays was on show before.
pub proof fn lemma_unexpired_from_before(toasts: Seq<Toast>, shown: Seq<u128>)
    ensures
        unexpired(toasts, shown).len() <= toasts.len(),
        forall|k: int|
            0 <= k < unexpired(toasts, shown).len() ==> toasts.contains(
                #[trigger] unexpired(toasts, shown)[k],
            ),
    decreases toasts.len(),
{
    if toasts.len() > 0 {
        let last = toasts.len() - 1;
        let before = toasts.drop_last();
        lemma_unexpired_from_before(before, shown);
        let kept = unexpired(toasts, shown);
        assert forall|k: int| 0 <= k < kept.len() implies toasts.contains(#[trigger] kept[k]) by {
            if k < unexpired(before, shown).len() {
                let at = choose|at: int|
                    0 <= at < before.len() && before[at] == unexpired(before, shown)[k];
                assert(toasts[at] == kept[k]);
            } else {
                assert(toasts[last] == kept[k]);
            }
        }
    }
}

/// Where no notice has a reading that reaches its duration, every notice
/// stays.
pub proof fn lemma_unexpired_none_due(toasts: Seq<Toast>, shown: Seq<u128>)
    requires
        forall|i: int|
            0 <= i < toasts.len() && i < shown.len() ==> !(#[trigger] toasts[i]).is_expired_after(
                shown[i],
            ),
    ensures
        unexpired(toasts, shown) == toasts,
    decreases toasts.len(),
{
    if toasts.len() > 0 {
        lemma_unexpired_none_due(toasts.drop_last(), shown);
        assert(toasts.drop_last().push(toasts.last()) =~= toasts);
    }
}

/// The notices on show, oldest first.
pub struct Manager {
    toasts: Vec<Toast>,
}

impl View for Manager {
    type V = Seq<Toast>;

    closed spec fn view(&self) -> Seq<Toast> {
        self.toasts@
    }
}

impl Default for Manager {
    fn default() -> (manager: Self)
        ensures
            manager@ == Seq::<Toast>::empty(),
    {
        Self { toasts: Vec::new() }
    }
}

impl Manager {
    pub fn new() -> (manager: Self)
        ensures
            manager@ == Seq::<Toast>::empty(),
    {
        Self { toasts: Vec::new() }
    }

    /// The notices on show, oldest first.
    pub fn toasts(&self) -> (toasts: &Vec<Toast>)
        ensures
            toasts@ == self@,
    {
        &self.toasts
    }

    /// Puts a notice behind those already on show.
    pub fn add(&mut self, toast: Toast)
        ensures
            final(self)@ == old(self)@.push(toast),
    {
        self.toasts.push(toast);
    }

    /// Takes away the notices that have had their time, given for each notice
    /// how long it has been shown.
    pub fn sweep(&mut self, shown: &Vec<u128>)
        ensures
            final(self)@ == unexpired(old(self)@, shown@),
            final(self)@.len() <= old(self)@.len(),
    {
        let mut all: Vec<Toast> = Vec::new();
        std::mem::swap(&mut self.toasts, &mut all);
        let total: usize = all.len();
        let mut kept: Vec<Toast> = Vec::new();
        let mut i: usize = 0;
        for toast in it: all
            invariant
                it.seq() == old(self)@,
                it.seq().len() == total,
                i == it.index(),
                kept@ == unexpired(it.seq().take(it.index() as int), shown@),
        {
            proof {
                let upto = it.seq().take(it.index() + 1);
                assert(upto.drop_last() =~= it.seq().take(it.index() as int));
                assert(upto[upto.len() - 1] == toast);
            }
            if i < shown.len() && toast.expired_after(shown[i]) {
            } else {
                kept.push(toast);
            }
            i += 1;
        }
        assert(old(self)@.take(old(self)@.len() as int) =~= old(self)@);
        proof {
            lemma_unexpired_from_before(old(self)@, shown@);
        }
        self.toasts = kept;
    }

    /// Takes away the notices that have had their time by the machine's
    /// clock. What stays is what [`Manager::sweep`] leaves for the readings
    /// the clock gave.
    pub fn update(&mut self)
        ensures
            exists|shown: Seq<u128>|
                shown.len() == old(self)@.len() && final(self)@ == unexpired(old(self)@, shown),
            final(self)@.len() <= old(self)@.len(),
    {
        let n: usize = self.toasts.len();
        let mut shown: Vec<u128> = Vec::new();
        let mut i: usize = 0;
        while i < n
            invariant
                n == self.toasts@.len(),
                self@ == old(self)@,
                i <= n,
                shown@.len() == i,
            decreases n - i,
        {
            shown.push(self.toasts[i].shown_millis());
            i += 1;
        }
        self.sweep(&shown);
    }
}

} // verus!
