//! Strategies for moving information out of a signal handler.
use vstd::prelude::*;

use std::fmt::Debug;
use std::sync::atomic::{AtomicBool, AtomicU64, Ordering};

use libc::{c_int, pid_t, uid_t};

use crate::consts::{SI_QUEUE, SI_USER};
use crate::sealed::Sealed;

verus! {

/// What a signal handler is told about one delivery: the `si_code` field and the sender's pid
/// and uid. The pid and uid mean something only where the code says a process sent the signal.
#[derive(Clone, Copy, Debug, PartialEq, Eq, Structural)]
pub struct SigInfo {
    pub code: c_int,
    pub pid: pid_t,
    pub uid: uid_t,
}

/// Whether `code` says that a process sent the signal, by `kill`, `raise` or `sigqueue`.
pub open spec fn is_process_code(code: c_int) -> bool {
    code == SI_USER || code == SI_QUEUE
}

/// Whether a delivery with the `si_code` value `code` carries the sender's pid and uid.
pub fn has_sender(code: c_int) -> (r: bool)
    ensures
        r == is_process_code(code),
{
    code == SI_USER || code == SI_QUEUE
}

/// A strategy for what is kept of a signal delivery and how it is handed out later.
///
/// Each registered signal has one slot of type `Storage`, shared by the signal handler and
/// ordinary code; its [`Default`] value means that no signal is pending. `store` runs inside the
/// signal handler and records the delivery in the slot; `load` runs in ordinary code, takes
/// what the slot holds and leaves it empty. Each is one atomic operation on the slot (no
/// allocation, no lock, no blocking), so any number of `store` calls and a `load` may overlap
/// on one slot. A later `store` overwrites one that was not loaded yet.
pub trait Exfiltrator: Sealed + Debug + Send + Sync + 'static {
    /// One slot, filled by `store` and emptied by `load`.
    type Storage: Debug + Default + Send + Sync + 'static;

    /// What `load` hands out.
    type Output;

    /// Whether this strategy can serve the signal `sig`.
    fn supports_signal(&self, sig: c_int) -> (r: bool);

    /// Records a delivery of `signal` described by `info`, overwriting what the slot held.
    fn store(&self, slot: &Self::Storage, signal: c_int, info: &SigInfo);

    /// Takes what the slot holds for `signal` and leaves it empty; `None` where no signal came
    /// since the last `load`.
    fn load(&self, slot: &Self::Storage, signal: c_int) -> (r: Option<Self::Output>);
}

/// An exfiltrator that keeps only the fact that the signal came: `load` hands out the signal
/// number. Deliveries before one `load` collapse into one.
///
/// Its slot is a flag: `store` sets it and `load` clears it, handing out the signal number where
/// it was set. A default slot is clear.
#[derive(Clone, Copy, Debug, Default)]
pub struct SignalOnly;

/// What a `SignalOnly` slot hands out for `signal` where the flag is `flag`.
pub open spec fn signal_of_flag(flag: bool, signal: c_int) -> Option<c_int> {
    if flag {
        Some(signal)
    } else {
        None
    }
}

/// The flag of a `SignalOnly` slot that held `flag`, after the stores of `infos` in order.
pub open spec fn flag_after_stores(flag: bool, infos: Seq<SigInfo>) -> bool
    decreases infos.len(),
{
    if infos.len() == 0 {
        flag
    } else {
        flag_after_stores(true, infos.drop_first())
    }
}

impl Sealed for SignalOnly {

}

impl Exfiltrator for SignalOnly {
    type Storage = AtomicBool;

    type Output = c_int;

    fn supports_signal(&self, sig: c_int) -> (r: bool)
        ensures
            r,
    {
        true
    }

    fn store(&self, slot: &AtomicBool, signal: c_int, info: &SigInfo) {
        slot.store(true, Ordering::SeqCst);
    }

    fn load(&self, slot: &AtomicBool, signal: c_int) -> (r: Option<c_int>)
        ensures
            exists|flag: bool| r == signal_of_flag(flag, signal),
    {
        let was_set = slot.compare_exchange(true, false, Ordering::SeqCst, Ordering::Relaxed).is_ok();
        assert(signal_of_flag(was_set, signal) == if was_set {
            Some(signal)
        } else {
            None::<c_int>
        });
        if was_set {
            Some(signal)
        } else {
            None
        }
    }
}

/// 2 to the 32nd: the weight of the high half of a word.
pub open spec fn half() -> int {
    0x1_0000_0000
}

/// The bits of a pid as an unsigned 32-bit number (two's complement).
pub open spec fn pid_bits(pid: pid_t) -> int {
    if pid >= 0 {
        pid as int
    } else {
        pid + half()
    }
}

/// A pid in the high half of a word and a uid in the low half.
pub open spec fn packed(pid: pid_t, uid: uid_t) -> u64 {
    (pid_bits(pid) * half() + uid) as u64
}

/// The pid held in the high half of a word.
pub open spec fn pid_of(word: u64) -> pid_t {
    let high = word as int / half();
    if high < 0x8000_0000 {
        high as pid_t
    } else {
        (high - half()) as pid_t
    }
}

/// The uid held in the low half of a word.
pub open spec fn uid_of(word: u64) -> uid_t {
    (word as int % half()) as uid_t
}

/// Reads the pid and the uid back out of a word.
fn decompose(word: u64) -> (r: (pid_t, uid_t))
    ensures
        r.0 == pid_of(word),
        r.1 == uid_of(word),
{
    let high: u64 = word / 0x1_0000_0000;
    let pid: pid_t = if high < 0x8000_0000 {
        high as pid_t
    } else {
        (high as i64 - 0x1_0000_0000) as pid_t
    };
    let uid: uid_t = (word % 0x1_0000_0000) as uid_t;
    (pid, uid)
}

/// Who sent a signal, as far as it is known.
#[non_exhaustive]
#[derive(Clone, Debug, PartialEq, Eq, Structural, PartialOrd, Ord, Hash)]
pub enum OriginType {
    /// The signal did not come from `kill`, `raise` or `sigqueue`.
    Unknown,
    /// A process sent the signal.
    Process { pid: pid_t, uid: uid_t },
}

/// A delivered signal and who sent it.
#[non_exhaustive]
#[derive(Clone, Debug, PartialEq, Eq, Structural, PartialOrd, Ord, Hash)]
pub struct Origin {
    pub signal: c_int,
    pub origin_type: OriginType,
}

/// The slot of [`WithOrigin`]: one atomic word that holds a packed pid and uid, or one of the
/// words [`WithOrigin::EMPTY`] and [`WithOrigin::UNKNOWN`].
#[derive(Debug)]
pub struct OriginStorage(AtomicU64);

impl Default for OriginStorage {
    /// An empty slot: it holds [`WithOrigin::EMPTY`].
    fn default() -> (r: Self) {
        OriginStorage(AtomicU64::new(WithOrigin::EMPTY))
    }
}

/// An exfiltrator that keeps who sent the signal: the pid and uid of the sending process where
/// the signal came from `kill`, `raise` or `sigqueue`, else the fact that the sender is unknown.
///
/// Its slot holds one word: `store` writes [`WithOrigin::encode`] of the delivery, and `load`
/// swaps in [`WithOrigin::EMPTY`] and hands out [`WithOrigin::decode`] of what it took.
#[derive(Clone, Copy, Debug, Default)]
pub struct WithOrigin;

/// The word that a `store` of `info` leaves in the slot.
pub open spec fn word_for(info: SigInfo) -> u64 {
    if is_process_code(info.code) {
        packed(info.pid, info.uid)
    } else {
        WithOrigin::UNKNOWN
    }
}

/// What a `load` for `signal` hands out of a slot that holds `word`.
pub open spec fn origin_of_word(word: u64, signal: c_int) -> Option<Origin> {
    if word == WithOrigin::EMPTY {
        None
    } else if word == WithOrigin::UNKNOWN {
        Some(Origin { signal, origin_type: OriginType::Unknown })
    } else {
        Some(
            Origin {
                signal,
                origin_type: OriginType::Process { pid: pid_of(word), uid: uid_of(word) },
            },
        )
    }
}

/// The word of a `WithOrigin` slot that held `word`, after the stores of `infos` in order.
pub open spec fn word_after_stores(word: u64, infos: Seq<SigInfo>) -> u64
    decreases infos.len(),
{
    if infos.len() == 0 {
        word
    } else {
        word_after_stores(word_for(infos[0]), infos.drop_first())
    }
}

impl WithOrigin {
    /// The word of an empty slot: pid -1 with uid 1.
    pub const EMPTY: u64 = 0xFFFF_FFFF_0000_0001;

    /// The word of a delivery from an unknown sender: pid -1 with uid 2.
    pub const UNKNOWN: u64 = 0xFFFF_FFFF_0000_0002;

    /// Packs a pid into the high half of a word and a uid into the low half.
    pub fn compose(pid: pid_t, uid: uid_t) -> (r: u64)
        ensures
            r == packed(pid, uid),
    {
        // the two's complement bits of the pid
        let high: u64 = if pid >= 0 {
            pid as u64
        } else {
            (pid as i64 + 0x1_0000_0000) as u64
        };
        let low: u64 = uid as u64;
        assert((high << 32u64) | low == high * 0x1_0000_0000 + low) by (bit_vector)
            requires
                high < 0x1_0000_0000,
                low < 0x1_0000_0000,
        ;
        (high << 32) | low
    }

    /// The word that records the delivery `info`: its pid and uid where a process sent it,
    /// else [`WithOrigin::UNKNOWN`].
    pub fn encode(info: &SigInfo) -> (r: u64)
        ensures
            r == word_for(*info),
    {
        if has_sender(info.code) {
            Self::compose(info.pid, info.uid)
        } else {
            Self::UNKNOWN
        }
    }

    /// What a slot that held `word` hands out for `signal`: nothing for
    /// [`WithOrigin::EMPTY`], an unknown sender for [`WithOrigin::UNKNOWN`], else the pid and
    /// uid packed in the word.
    pub fn decode(word: u64, signal: c_int) -> (r: Option<Origin>)
        ensures
            r == origin_of_word(word, signal),
    {
        if word == Self::EMPTY {
            None
        } else if word == Self::UNKNOWN {
            Some(Origin { signal, origin_type: OriginType::Unknown })
        } else {
            let (pid, uid) = decompose(word);
            Some(Origin { signal, origin_type: OriginType::Process { pid, uid } })
        }
    }
}

impl Sealed for WithOrigin {

}

impl Exfiltrator for WithOrigin {
    type Storage = OriginStorage;

    type Output = Origin;

    fn supports_signal(&self, sig: c_int) -> (r: bool)
        ensures
            r,
    {
        true
    }

    fn store(&self, slot: &OriginStorage, signal: c_int, info: &SigInfo) {
        slot.0.store(Self::encode(info), Ordering::SeqCst);
    }

    fn load(&self, slot: &OriginStorage, signal: c_int) -> (r: Option<Origin>)
        ensures
            exists|word: u64| r == origin_of_word(word, signal),
    {
        let loaded = slot.0.swap(Self::EMPTY, Ordering::SeqCst);
        Self::decode(loaded, signal)
    }
}

/// After one or more stores a `SignalOnly` flag is set, whatever it was before.
proof fn lemma_flag_after_stores(flag: bool, infos: Seq<SigInfo>)
    requires
        infos.len() > 0,
    ensures
        flag_after_stores(flag, infos),
    decreases infos.len(),
{
    if infos.len() > 1 {
        lemma_flag_after_stores(true, infos.drop_first());
    } else {
        assert(flag_after_stores(true, infos.drop_first()));
    }
}

/// Any number of deliveries of a signal to a `SignalOnly` slot is seen by one `load` as the
/// signal number, once: the cleared flag that `load` leaves hands out nothing.
pub proof fn lemma_signal_only_coalesces(flag: bool, infos: Seq<SigInfo>, signal: c_int)
    requires
        infos.len() > 0,
    ensures
        signal_of_flag(flag_after_stores(flag, infos), signal) == Some(signal),
        signal_of_flag(false, signal) is None,
{
    lemma_flag_after_stores(flag, infos);
}

/// After one or more stores a `WithOrigin` slot holds the word of the last one: earlier stores
/// leave no trace, and every word it passes through is a whole record.
pub proof fn lemma_last_store_wins(word: u64, infos: Seq<SigInfo>, signal: c_int)
    requires
        infos.len() > 0,
    ensures
        word_after_stores(word, infos) == word_for(infos.last()),
        origin_of_word(word_after_stores(word, infos), signal) == origin_of_word(
            word_for(infos.last()),
            signal,
        ),
    decreases infos.len(),
{
    if infos.len() > 1 {
        lemma_last_store_wins(word_for(infos[0]), infos.drop_first(), signal);
        assert(infos.drop_first().last() == infos.last());
    } else {
        assert(word_after_stores(word_for(infos[0]), infos.drop_first()) == word_for(infos[0]));
    }
}

/// A pid and a uid come back unchanged out of the word they were packed into.
pub proof fn lemma_packed_round_trip(pid: pid_t, uid: uid_t)
    ensures
        pid_of(packed(pid, uid)) == pid,
        uid_of(packed(pid, uid)) == uid,
{
    assert(pid_of(packed(pid, uid)) == pid) by (nonlinear_arith)
        requires
            0 <= pid_bits(pid) < half(),
            pid_bits(pid) < 0x8000_0000 <==> pid >= 0,
            pid_bits(pid) == if pid >= 0 {
                pid as int
            } else {
                pid + half()
            },
            packed(pid, uid) == pid_bits(pid) * half() + uid,
            half() == 0x1_0000_0000,
            0 <= uid < half(),
            pid_of(packed(pid, uid)) == if (packed(pid, uid) as int / half()) < 0x8000_0000 {
                (packed(pid, uid) as int / half()) as pid_t
            } else {
                ((packed(pid, uid) as int / half()) - half()) as pid_t
            },
    ;
    assert(uid_of(packed(pid, uid)) == uid) by (nonlinear_arith)
        requires
            0 <= pid_bits(pid) < half(),
            packed(pid, uid) == pid_bits(pid) * half() + uid,
            half() == 0x1_0000_0000,
            0 <= uid < half(),
            uid_of(packed(pid, uid)) == (packed(pid, uid) as int % half()) as uid_t,
    ;
}

/// Two pairs that pack into the same word are the same pair.
pub proof fn lemma_packed_injective(pid1: pid_t, uid1: uid_t, pid2: pid_t, uid2: uid_t)
    requires
        packed(pid1, uid1) == packed(pid2, uid2),
    ensures
        pid1 == pid2,
        uid1 == uid2,
{
    lemma_packed_round_trip(pid1, uid1);
    lemma_packed_round_trip(pid2, uid2);
}

/// The two reserved words are packed pairs: pid -1 with uid 1 is the empty slot and pid -1 with
/// uid 2 the unknown sender. A process with pid -1 and one of those uids cannot be told apart
/// from them.
pub proof fn lemma_reserved_words()
    ensures
        packed(-1i32, 1u32) == WithOrigin::EMPTY,
        packed(-1i32, 2u32) == WithOrigin::UNKNOWN,
{
}

/// Every pair but the two reserved ones packs into a word that is neither reserved word.
pub proof fn lemma_packed_avoids_reserved(pid: pid_t, uid: uid_t)
    requires
        !(pid == -1 && (uid == 1 || uid == 2)),
    ensures
        packed(pid, uid) != WithOrigin::EMPTY,
        packed(pid, uid) != WithOrigin::UNKNOWN,
{
    lemma_reserved_words();
    if packed(pid, uid) == WithOrigin::EMPTY {
        lemma_packed_injective(pid, uid, -1i32, 1u32);
    }
    if packed(pid, uid) == WithOrigin::UNKNOWN {
        lemma_packed_injective(pid, uid, -1i32, 2u32);
    }
}

/// Every pid and uid but the two reserved pairs goes through a `WithOrigin` word unchanged.
pub proof fn lemma_origin_round_trip(pid: pid_t, uid: uid_t, signal: c_int)
    requires
        !(pid == -1 && (uid == 1 || uid == 2)),
    ensures
        origin_of_word(packed(pid, uid), signal) == Some(
            Origin { signal, origin_type: OriginType::Process { pid, uid } },
        ),
{
    lemma_packed_round_trip(pid, uid);
    lemma_packed_avoids_reserved(pid, uid);
}

/// An empty `WithOrigin` slot, a default one or the one that `load` leaves, hands out nothing.
pub proof fn lemma_empty_word_loads_nothing(signal: c_int)
    ensures
        origin_of_word(WithOrigin::EMPTY, signal) is None,
{
}

/// A delivery sent by `kill`, `raise` or `sigqueue` to an empty slot is handed out once, with
/// the sender's pid and uid, unless they form one of the two reserved pairs; the slot that
/// `load` leaves hands out nothing.
pub proof fn lemma_process_delivery(info: SigInfo, signal: c_int)
    requires
        is_process_code(info.code),
        !(info.pid == -1 && (info.uid == 1 || info.uid == 2)),
    ensures
        origin_of_word(word_after_stores(WithOrigin::EMPTY, seq![info]), signal) == Some(
            Origin { signal, origin_type: OriginType::Process { pid: info.pid, uid: info.uid } },
        ),
        origin_of_word(WithOrigin::EMPTY, signal) is None,
{
    lemma_last_store_wins(WithOrigin::EMPTY, seq![info], signal);
    lemma_origin_round_trip(info.pid, info.uid, signal);
}

/// A delivery with any other code is handed out as coming from an unknown sender.
pub proof fn lemma_unknown_delivery(info: SigInfo, signal: c_int)
    requires
        !is_process_code(info.code),
    ensures
        origin_of_word(word_for(info), signal) == Some(
            Origin { signal, origin_type: OriginType::Unknown },
        ),
{
}

} // verus!
