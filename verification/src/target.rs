//! The search for an encoding that fits a target file size.
//!
//! The encoder is run again and again: first with lower quality, then, once quality is at its
//! floor, on a smaller scaled copy of the image, until an attempt fits the target or the
//! attempts run out. Encoding itself is done by the caller; this module decides, after each
//! attempt, what happens next.
use vstd::prelude::*;
use crate::text::{decimal, decimal_string, digits_value, lemma_decimal, owned};
use vstd::string::StringExecFns;

verus! {

/// Quality is not lowered below this value.
pub const MIN_QUALITY: u8 = 35;

/// How much quality drops from one attempt to the next.
pub const QUALITY_STEP: u8 = 8;

/// The scale (in percent of the resize limits) is not lowered below this value.
pub const MIN_SCALE_PCT: u8 = 40;

/// How much the scale (in percent) drops from one attempt to the next.
pub const SCALE_STEP_PCT: u8 = 12;

/// No more than this many encodings are attempted.
pub const MAX_ATTEMPTS: u8 = 10;

/// Where the search stands before the next encoding attempt.
#[derive(Clone, Copy, Debug, PartialEq, Eq)]
pub struct TargetSearch {
    /// The target size, in KiB.
    pub target_kb: u32,
    /// The quality to encode with next.
    pub quality: u8,
    /// The scale to resize with next, in percent (100 is no extra scaling).
    pub scale_pct: u8,
    /// How many attempts were made so far.
    pub attempts: u8,
    /// The size of the smallest attempt so far, once there is one.
    pub best_len: Option<u64>,
}

/// What to do after an encoding attempt.
#[derive(Clone, Copy, Debug, PartialEq, Eq)]
pub enum TargetDecision {
    /// The attempt fits the target: deliver it.
    Accept,
    /// The attempt is too large: encode again as `next` says. `keep` tells whether this
    /// attempt becomes the best one so far.
    Retry { next: TargetSearch, keep: bool },
    /// The attempt is too large and the search is over: deliver the best attempt, whose size
    /// is `best_len`. `keep` tells whether this attempt is that best one.
    GiveUp { keep: bool, best_len: u64 },
}

/// The quality that follows `q` while quality may still drop.
pub open spec fn lowered_quality(q: u8) -> u8 {
    if q - QUALITY_STEP < MIN_QUALITY {
        MIN_QUALITY
    } else {
        (q - QUALITY_STEP) as u8
    }
}

/// The scale that follows `pct` while the scale may still drop.
pub open spec fn lowered_scale(pct: u8) -> u8 {
    if pct - SCALE_STEP_PCT < MIN_SCALE_PCT {
        MIN_SCALE_PCT
    } else {
        (pct - SCALE_STEP_PCT) as u8
    }
}

impl TargetSearch {
    /// The target size in bytes.
    pub open spec fn target_bytes(self) -> int {
        self.target_kb * 1024
    }

    /// The state of a search that has made no attempt yet.
    pub open spec fn initial(target_kb: u32, quality: u8) -> TargetSearch {
        TargetSearch { target_kb, quality, scale_pct: 100, attempts: 0, best_len: None }
    }

    /// The states that a search passes through.
    pub open spec fn wf(self) -> bool {
        &&& self.attempts < MAX_ATTEMPTS
        &&& MIN_SCALE_PCT <= self.scale_pct <= 100
        &&& self.scale_pct < 100 ==> self.quality <= MIN_QUALITY
        &&& (self.attempts == 0) == (self.best_len is None)
    }

    /// Whether an attempt of size `len` becomes the best one: it is no larger than every
    /// earlier attempt (a later attempt wins a tie).
    pub open spec fn keeps(self, len: u64) -> bool {
        match self.best_len {
            Some(b) => len <= b,
            None => true,
        }
    }

    /// The size of the best attempt once an attempt of size `len` has been made.
    pub open spec fn best_after(self, len: u64) -> u64 {
        if self.keeps(len) {
            len
        } else {
            self.best_len.unwrap()
        }
    }

    /// The settings for the attempt after this one, or `None` when neither quality nor scale
    /// may drop any further.
    pub open spec fn lowered(self) -> Option<(u8, u8)> {
        if self.quality > MIN_QUALITY {
            Some((lowered_quality(self.quality), self.scale_pct))
        } else if self.scale_pct > MIN_SCALE_PCT {
            Some((self.quality, lowered_scale(self.scale_pct)))
        } else {
            None
        }
    }

    /// What follows an attempt whose encoding has `len` bytes.
    pub open spec fn decide(self, len: u64) -> TargetDecision {
        if len <= self.target_bytes() {
            TargetDecision::Accept
        } else {
            let keep = self.keeps(len);
            let best = self.best_after(len);
            match self.lowered() {
                Some((q, pct)) => if self.attempts + 1 < MAX_ATTEMPTS {
                    TargetDecision::Retry {
                        next: TargetSearch {
                            target_kb: self.target_kb,
                            quality: q,
                            scale_pct: pct,
                            attempts: (self.attempts + 1) as u8,
                            best_len: Some(best),
                        },
                        keep,
                    }
                } else {
                    TargetDecision::GiveUp { keep, best_len: best }
                },
                None => TargetDecision::GiveUp { keep, best_len: best },
            }
        }
    }

    /// Starts a search for an encoding of at most `target_kb` KiB, first trying `quality` at
    /// full scale.
    pub fn new(target_kb: u32, quality: u8) -> (r: TargetSearch)
        ensures
            r == TargetSearch::initial(target_kb, quality),
            r.wf(),
    {
        TargetSearch { target_kb, quality, scale_pct: 100, attempts: 0, best_len: None }
    }

    /// The target size in bytes.
    pub fn target_len(&self) -> (r: u64)
        ensures
            r == self.target_bytes(),
    {
        self.target_kb as u64 * 1024
    }

    /// Decides what follows an attempt whose encoding has `len` bytes.
    pub fn step(&self, len: u64) -> (r: TargetDecision)
        ensures
            r == self.decide(len),
    {
        if len <= self.target_len() {
            return TargetDecision::Accept;
        }
        let keep = match self.best_len {
            Some(b) => len <= b,
            None => true,
        };
        let best = if keep {
            len
        } else {
            match self.best_len {
                Some(b) => b,
                None => len,
            }
        };
        let (quality, scale_pct) = if self.quality > MIN_QUALITY {
            let q = if self.quality - QUALITY_STEP < MIN_QUALITY {
                MIN_QUALITY
            } else {
                self.quality - QUALITY_STEP
            };
            (q, self.scale_pct)
        } else if self.scale_pct > MIN_SCALE_PCT {
            let p = if self.scale_pct - SCALE_STEP_PCT < MIN_SCALE_PCT {
                MIN_SCALE_PCT
            } else {
                self.scale_pct - SCALE_STEP_PCT
            };
            (self.quality, p)
        } else {
            return TargetDecision::GiveUp { keep, best_len: best };
        };
        if self.attempts >= MAX_ATTEMPTS - 1 {
            return TargetDecision::GiveUp { keep, best_len: best };
        }
        TargetDecision::Retry {
            next: TargetSearch {
                target_kb: self.target_kb,
                quality,
                scale_pct,
                attempts: self.attempts + 1,
                best_len: Some(best),
            },
            keep,
        }
    }
}


/// How a search ends when its attempts have the sizes `lens`, in order.
pub enum SearchOutcome {
    /// The attempt at position `index` fits the target.
    Accepted { index: nat },
    /// The search gave up after `used` attempts; the best of them has `best_len` bytes.
    GaveUp { used: nat, best_len: u64 },
    /// The sizes ran out before the search ended.
    Pending,
}

impl TargetSearch {
    /// The outcome of the search from this state when its attempts have the sizes `lens`.
    pub open spec fn run(self, lens: Seq<u64>) -> SearchOutcome
        decreases lens.len(),
    {
        if lens.len() == 0 {
            SearchOutcome::Pending
        } else {
            match self.decide(lens[0]) {
                TargetDecision::Accept => SearchOutcome::Accepted { index: 0 },
                TargetDecision::GiveUp { best_len, .. } => SearchOutcome::GaveUp {
                    used: 1,
                    best_len,
                },
                TargetDecision::Retry { next, .. } => match next.run(lens.drop_first()) {
                    SearchOutcome::Accepted { index } => SearchOutcome::Accepted {
                        index: index + 1,
                    },
                    SearchOutcome::GaveUp { used, best_len } => SearchOutcome::GaveUp {
                        used: used + 1,
                        best_len,
                    },
                    SearchOutcome::Pending => SearchOutcome::Pending,
                },
            }
        }
    }
}

/// Each retry keeps the search well formed, counts one more attempt, and lowers the
/// settings: quality first (down to its floor), then the scale (down to its floor); neither
/// ever rises, and one of them always drops. The best size so far is the smaller of the old
/// best and this attempt.
pub proof fn lemma_retry_lowers_settings(s: TargetSearch, len: u64)
    requires
        s.wf(),
    ensures
        s.decide(len) matches TargetDecision::Retry { next, keep } ==> {
            &&& next.wf()
            &&& next.target_kb == s.target_kb
            &&& next.attempts == s.attempts + 1
            &&& next.quality <= s.quality
            &&& next.scale_pct <= s.scale_pct
            &&& next.quality < s.quality || next.scale_pct < s.scale_pct
            &&& next.scale_pct < s.scale_pct ==> s.quality <= MIN_QUALITY
            &&& next.quality < s.quality ==> next.quality >= MIN_QUALITY
            &&& next.scale_pct >= MIN_SCALE_PCT
            &&& len > s.target_bytes()
            &&& keep == s.keeps(len)
            &&& next.best_len == Some(s.best_after(len))
        },
{
}

/// An attempt is delivered at once exactly when it fits the target size.
pub proof fn lemma_accept_iff_fits(s: TargetSearch, len: u64)
    ensures
        (s.decide(len) is Accept) <==> len <= s.target_bytes(),
{
}

proof fn lemma_run_general(s: TargetSearch, lens: Seq<u64>)
    requires
        s.wf(),
    ensures
        lens.len() + s.attempts >= MAX_ATTEMPTS ==> !(s.run(lens) is Pending),
        s.run(lens) matches SearchOutcome::Accepted { index } ==> {
            &&& index < lens.len()
            &&& index + s.attempts < MAX_ATTEMPTS
            &&& lens[index as int] <= s.target_bytes()
            &&& forall|j: int| 0 <= j < index ==> lens[j] > s.target_bytes()
        },
        s.run(lens) matches SearchOutcome::GaveUp { used, best_len } ==> {
            &&& 1 <= used <= lens.len()
            &&& used + s.attempts <= MAX_ATTEMPTS
            &&& forall|j: int| 0 <= j < used ==> lens[j] > s.target_bytes()
            &&& forall|j: int| 0 <= j < used ==> best_len <= lens[j]
            &&& (s.best_len matches Some(b) ==> best_len <= b)
            &&& (exists|j: int| 0 <= j < used && lens[j] == best_len) || s.best_len == Some(
                best_len,
            )
        },
    decreases lens.len(),
{
    if lens.len() > 0 {
        let len = lens[0];
        lemma_retry_lowers_settings(s, len);
        match s.decide(len) {
            TargetDecision::Accept => {},
            TargetDecision::GiveUp { best_len, .. } => {
                if s.keeps(len) {
                    assert(lens[0] == best_len);
                }
            },
            TargetDecision::Retry { next, .. } => {
                let rest = lens.drop_first();
                lemma_run_general(next, rest);
                match next.run(rest) {
                    SearchOutcome::Accepted { index } => {
                        assert forall|j: int| 0 <= j < index + 1 implies lens[j]
                            > s.target_bytes() by {
                            if j > 0 {
                                assert(lens[j] == rest[j - 1]);
                            }
                        }
                        assert(lens[index + 1 as int] == rest[index as int]);
                    },
                    SearchOutcome::GaveUp { used, best_len } => {
                        assert forall|j: int| 0 <= j < used + 1 implies lens[j] > s.target_bytes()
                            && best_len <= lens[j] by {
                            if j > 0 {
                                assert(lens[j] == rest[j - 1]);
                            }
                        }
                        if exists|j: int| 0 <= j < used && rest[j] == best_len {
                            let j = choose|j: int| 0 <= j < used && rest[j] == best_len;
                            assert(lens[j + 1] == best_len);
                        } else {
                            if !s.keeps(len) {
                                assert(s.best_len == Some(best_len));
                            } else {
                                assert(lens[0] == best_len);
                            }
                        }
                    },
                    SearchOutcome::Pending => {},
                }
            },
        }
    }
}

/// A search ends within `MAX_ATTEMPTS` encodings. It delivers the first attempt that fits the
/// target; when none of them fits, it gives up after at most `MAX_ATTEMPTS` attempts and
/// reports the smallest of them.
pub proof fn lemma_search_outcome(target_kb: u32, quality: u8, lens: Seq<u64>)
    ensures
        ({
            let s = TargetSearch::initial(target_kb, quality);
            &&& lens.len() >= MAX_ATTEMPTS ==> !(s.run(lens) is Pending)
            &&& s.run(lens) matches SearchOutcome::Accepted { index } ==> {
                &&& index < MAX_ATTEMPTS
                &&& lens[index as int] <= target_kb * 1024
                &&& forall|j: int| 0 <= j < index ==> lens[j] > target_kb * 1024
            }
            &&& s.run(lens) matches SearchOutcome::GaveUp { used, best_len } ==> {
                &&& 1 <= used <= MAX_ATTEMPTS
                &&& forall|j: int| 0 <= j < used ==> lens[j] > target_kb * 1024
                &&& forall|j: int| 0 <= j < used ==> best_len <= lens[j]
                &&& exists|j: int| 0 <= j < used && lens[j] == best_len
            }
        }),
{
    lemma_run_general(TargetSearch::initial(target_kb, quality), lens);
}


/// After an attempt that is too large, the search tries again whenever quality or scale may
/// still drop and attempts remain, whatever the sizes of earlier attempts: quality drops by 8
/// (not below 35) while it is above 35, and otherwise the scale drops by 12 points (not below
/// 40%). The best size becomes the smaller of this attempt and the earlier best.
pub proof fn lemma_retry_while_settings_can_drop(s: TargetSearch, len: u64)
    requires
        len > s.target_kb * 1024,
        s.attempts + 1 < 10,
        s.quality > 35 || s.scale_pct > 40,
    ensures
        s.decide(len) matches TargetDecision::Retry { next, keep } && {
            &&& next.target_kb == s.target_kb
            &&& next.attempts == s.attempts + 1
            &&& s.quality > 35 ==> next.scale_pct == s.scale_pct && next.quality == (if s.quality
                >= 43 {
                s.quality - 8
            } else {
                35
            })
            &&& s.quality <= 35 ==> next.quality == s.quality && next.scale_pct == (if s.scale_pct
                >= 52 {
                s.scale_pct - 12
            } else {
                40
            })
            &&& keep <==> (forall|b: u64| s.best_len == Some(b) ==> len <= b)
            &&& next.best_len matches Some(b) && b <= len && (s.best_len matches Some(b0) ==> b
                <= b0) && (b == len || s.best_len == Some(b))
        },
{
}

/// The search stops without a fitting attempt only when the attempts run out or both quality
/// (35) and scale (40%) are at their floors; what it reports then is the smallest attempt.
pub proof fn lemma_give_up_only_at_the_end(s: TargetSearch, len: u64)
    ensures
        s.decide(len) matches TargetDecision::GiveUp { keep, best_len } ==> {
            &&& len > s.target_kb * 1024
            &&& s.attempts + 1 >= 10 || (s.quality <= 35 && s.scale_pct <= 40)
            &&& best_len <= len
            &&& s.best_len matches Some(b0) ==> best_len <= b0
            &&& best_len == len || s.best_len == Some(best_len)
            &&& keep <==> best_len == len && (forall|b: u64| s.best_len == Some(b) ==> len <= b)
        },
        s.decide(len) is Accept <==> len <= s.target_kb * 1024,
        len > s.target_kb * 1024 && s.attempts + 1 >= 10 ==> s.decide(len) is GiveUp,
        len > s.target_kb * 1024 && s.quality <= 35 && s.scale_pct <= 40 ==> s.decide(len) is GiveUp,
{
}

/// The warning names the target and the best size in whole KiB (rounded down): it reads
/// "Could not reach ", the target's digits, " KB. Best result: ", the best size's digits and
/// " KB.".
pub proof fn lemma_shortfall_numbers(target_kb: u32, best_len: u64)
    ensures
        ({
            let s = shortfall_text(target_kb, best_len);
            let n1 = decimal(target_kb as nat).len() as int;
            let n2 = decimal((best_len / 1024) as nat).len() as int;
            &&& s.len() == 16 + n1 + 18 + n2 + 4
            &&& s.subrange(0, 16) == "Could not reach "@
            &&& digits_value(s.subrange(16, 16 + n1)) == target_kb
            &&& s.subrange(16 + n1, 34 + n1) == " KB. Best result: "@
            &&& digits_value(s.subrange(34 + n1, 34 + n1 + n2)) == best_len / 1024
            &&& s.subrange(34 + n1 + n2, s.len() as int) == " KB."@
        }),
{
    reveal_strlit("Could not reach ");
    reveal_strlit(" KB. Best result: ");
    reveal_strlit(" KB.");
    let a = "Could not reach "@;
    let d1 = decimal(target_kb as nat);
    let m = " KB. Best result: "@;
    let d2 = decimal((best_len / 1024) as nat);
    let z = " KB."@;
    let s = shortfall_text(target_kb, best_len);
    assert(a.len() == 16 && m.len() == 18 && z.len() == 4);
    lemma_decimal(target_kb as nat);
    lemma_decimal((best_len / 1024) as nat);
    let n1 = d1.len() as int;
    let n2 = d2.len() as int;
    assert(s == a + d1 + m + d2 + z);
    assert(s.subrange(0, 16) =~= a);
    assert(s.subrange(16, 16 + n1) =~= d1);
    assert(s.subrange(16 + n1, 34 + n1) =~= m);
    assert(s.subrange(34 + n1, 34 + n1 + n2) =~= d2);
    assert(s.subrange(34 + n1 + n2, s.len() as int) =~= z);
}

/// The warning given when no attempt reached the target.
pub open spec fn shortfall_text(target_kb: u32, best_len: u64) -> Seq<char> {
    "Could not reach "@ + decimal(target_kb as nat) + " KB. Best result: "@ + decimal(
        (best_len / 1024) as nat,
    ) + " KB."@
}

/// The warning given when no attempt reached `target_kb` KiB and the best one has `best_len`
/// bytes (reported in whole KiB, rounded down).
pub fn shortfall_warning(target_kb: u32, best_len: u64) -> (r: String)
    ensures
        r@ == shortfall_text(target_kb, best_len),
{
    let mut r = owned("Could not reach ");
    let t = decimal_string(target_kb as u64);
    r = r.concat(t.as_str());
    r = r.concat(" KB. Best result: ");
    let b = decimal_string(best_len / 1024);
    r = r.concat(b.as_str());
    r = r.concat(" KB.");
    r
}

} // verus!
