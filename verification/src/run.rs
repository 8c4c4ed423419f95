//! The top-level loop, one turn at a time: the hart executes until something
//! needs the host, and says what.

use crate::defs::{exception_is_environment_call, is_environment_call, Trap};
use crate::hart::{HartView, RiscvInt};
use crate::mem::{GuestMemory, MemView};
use crate::model::{cache_after_cached, cache_after_uncached, CacheView};
use crate::semantics::{cached_result, cached_round, cached_run, uncached_result, uncached_run};
use crate::syscall::{syscall_request, SyscallIn};
use crate::trap::deliver_trap;
use vstd::prelude::*;

verus! {

/// Why a turn of the top-level loop ended.
#[derive(Clone, Copy, Debug, PartialEq, Eq)]
pub enum ExitReason {
    /// A user-mode guest raised a trap that is no environment call. Nothing in
    /// the guest can handle it: the host ends the guest.
    ExitTrap(Trap),
    /// A user-mode guest made an environment call: the host carries out the
    /// system call and hands its result to `syscall_return`.
    Syscall(SyscallIn),
    /// The hart waits for an interrupt.
    Wfi,
    /// A system-mode guest raised a trap, which went to the guest's own
    /// handler. The next turn begins at once: the host does not poll for
    /// signals before it.
    Trapped(Trap),
    /// Nothing is asked of the host; the next turn may begin once the host has
    /// polled for signals.
    Continue,
}

/// The hart once the jump that the last turn left pending was taken.
pub open spec fn take_jump(h: HartView) -> HartView {
    match h.want_pc {
        Some(f) => HartView { pc: f, want_pc: None, ..h },
        None => h,
    }
}

/// What the end of a turn makes of the state the execution loop left. With a
/// trap pending, a user-mode hart stays as it is and asks the host for the
/// system call of an environment call, or reports any other trap as the end of
/// the guest; a system-mode hart has the trap delivered, after which no trap,
/// jump or wait is pending, and the turn ends with `Trapped`. With no trap
/// pending the turn just ends. Where the turn ends with `Trapped` or
/// `Continue`, `stop_exec` is clear.
pub open spec fn settle(h: HartView) -> (HartView, ExitReason) {
    match h.trap {
        Some(trp) => if h.usermode {
            if is_environment_call(trp.ttype) {
                (h, ExitReason::Syscall(syscall_request(h)))
            } else {
                (h, ExitReason::ExitTrap(trp))
            }
        } else {
            (
                HartView {
                    trap_pc: 0,
                    trap: None,
                    want_pc: None,
                    wfi: false,
                    stop_exec: false,
                    ..deliver_trap(h, trp, h.trap_pc)
                },
                ExitReason::Trapped(trp),
            )
        },
        None => (HartView { stop_exec: false, ..h }, ExitReason::Continue),
    }
}

/// One turn of the top-level loop. A hart with a trap pending settles it
/// without executing. Otherwise the pending jump is taken; a hart that waits
/// for an interrupt stays as it is; any other hart clears `stop_exec`, makes a
/// pass over the instructions, with the cache where `cached` is set, and
/// settles what the pass left.
pub open spec fn run_spec(h: HartView, fuel: nat, cached: bool) -> (HartView, ExitReason) {
    if h.trap is Some {
        settle(h)
    } else {
        let h1 = take_jump(h);
        if h1.wfi {
            (h1, ExitReason::Wfi)
        } else {
            let h2 = HartView { stop_exec: false, ..h1 };
            settle(
                if cached {
                    cached_run(h2, fuel)
                } else {
                    uncached_run(h2, fuel)
                },
            )
        }
    }
}

/// The cache after one turn of the top-level loop: what the pass over the
/// instructions makes of it, with the cache switched on again after a pass
/// with the cache.
pub open spec fn cache_after_run(c: CacheView, h: HartView, fuel: nat) -> CacheView {
    if h.trap is Some || take_jump(h).wfi {
        c
    } else {
        let h2 = HartView { stop_exec: false, ..take_jump(h) };
        if c.cache_enabled {
            CacheView { cache_enabled: true, ..cache_after_cached(c, h2, fuel) }
        } else {
            cache_after_uncached(c, h2, fuel)
        }
    }
}

/// A pass without the cache that returns a trap leaves that trap pending.
pub proof fn lemma_uncached_trap_pending(h: HartView, fuel: nat)
    ensures
        uncached_result(h, fuel) matches Err(t) ==> uncached_run(h, fuel).trap == Some(t),
    decreases fuel,
{
    if fuel > 0 {
        match crate::semantics::fetch_spec(h) {
            Err(t) => {},
            Ok(i) => {
                if !crate::semantics::apply(h, i).stop_exec {
                    lemma_uncached_trap_pending(crate::semantics::apply(h, i), (fuel - 1) as nat);
                }
            },
        }
    }
}

/// A pass with the cache that returns a trap leaves that trap pending.
pub proof fn lemma_cached_trap_pending(h: HartView, fuel: nat)
    ensures
        cached_result(h, fuel) matches Err(t) ==> cached_run(h, fuel).trap == Some(t),
    decreases fuel,
{
    if fuel > 0 {
        let o = cached_round(h);
        if o.ended is None {
            lemma_cached_trap_pending(o.hart, (fuel - 1) as nat);
        }
    }
}

impl RiscvInt {
    /// Gives the hart memory `mem` in place of what it had, and forgets every
    /// cached block.
    pub fn attach_memory(&mut self, mem: GuestMemory)
        requires
            mem.wf(),
        ensures
            final(self)@ == (HartView {
                mem: MemView { base: mem.base, bytes: mem.bytes@, ..old(self)@.mem },
                ..old(self)@
            }),
            final(self).instr@ == Map::<u64, Vec<crate::hart::RiscvBlock>>::empty(),
            final(self).current_block == old(self).current_block,
            final(self).cache_enabled == old(self).cache_enabled,
            final(self).stop_translating == old(self).stop_translating,
            final(self).wf(),
    {
        self.memsource.guest_mem = mem;
        self.instr.clear();
    }

    /// Settles what a pass left: see `settle`.
    fn settle_turn(&mut self) -> (r: ExitReason)
        ensures
            (final(self)@, r) == settle(old(self)@),
            final(self).same_cache(old(self)),
    {
        match self.trap {
            Some(trp) => {
                if self.usermode {
                    if exception_is_environment_call(trp.ttype) {
                        ExitReason::Syscall(self.handle_syscall())
                    } else {
                        ExitReason::ExitTrap(trp)
                    }
                } else {
                    self.handle_trap(trp, self.trap_pc);
                    self.trap_pc = 0;
                    self.trap = None;
                    self.want_pc = None;
                    self.wfi = false;
                    self.stop_exec = false;
                    ExitReason::Trapped(trp)
                }
            },
            None => {
                self.stop_exec = false;
                ExitReason::Continue
            },
        }
    }

    /// Takes the jump that the last turn left pending.
    fn take_pending_jump(&mut self)
        ensures
            final(self)@ == take_jump(old(self)@),
            final(self).same_cache(old(self)),
    {
        match self.want_pc {
            Some(f) => {
                self.pc = f;
                self.want_pc = None;
            },
            None => {},
        }
    }

    /// Clears `stop_exec` and makes one pass over the instructions, with the
    /// cache where it is switched on. The trap of a failed fetch is pending
    /// afterwards.
    fn make_pass(&mut self, budget: u64)
        requires
            old(self).wf(),
        ensures
            final(self)@ == (if old(self).cache_enabled {
                cached_run(HartView { stop_exec: false, ..old(self)@ }, budget as nat)
            } else {
                uncached_run(HartView { stop_exec: false, ..old(self)@ }, budget as nat)
            }),
            final(self).cache() == (if old(self).cache_enabled {
                CacheView {
                    cache_enabled: true,
                    ..cache_after_cached(
                        old(self).cache(),
                        HartView { stop_exec: false, ..old(self)@ },
                        budget as nat,
                    )
                }
            } else {
                cache_after_uncached(
                    old(self).cache(),
                    HartView { stop_exec: false, ..old(self)@ },
                    budget as nat,
                )
            }),
            final(self).cache_enabled == old(self).cache_enabled,
            final(self).wf(),
    {
        self.clear_stop();
        let ghost h2 = self@;
        if self.cache_enabled {
            let r = self.exec_cached_int(budget);
            proof {
                lemma_cached_trap_pending(h2, budget as nat);
            }
            self.note_trap(r);
            self.enable_cache();
        } else {
            let r = self.exec_one_by_one(budget);
            proof {
                lemma_uncached_trap_pending(h2, budget as nat);
            }
            self.note_trap(r);
        }
    }

    fn clear_stop(&mut self)
        requires
            old(self).wf(),
        ensures
            final(self)@ == (HartView { stop_exec: false, ..old(self)@ }),
            final(self).same_cache(old(self)),
            final(self).wf(),
    {
        self.stop_exec = false;
        proof {
            crate::handlers::lemma_wf_frame(old(self), self);
        }
    }

    /// Makes the trap that a pass returned the pending one; a pass that
    /// returned none leaves the hart as it is.
    fn note_trap(&mut self, r: Result<(), Trap>)
        requires
            old(self).wf(),
        ensures
            final(self)@ == (match r {
                Err(t) => HartView { trap: Some(t), ..old(self)@ },
                Ok(_) => old(self)@,
            }),
            final(self).same_cache(old(self)),
            final(self).wf(),
    {
        match r {
            Ok(_) => {},
            Err(z) => {
                self.trap = Some(z);
            },
        }
        proof {
            crate::handlers::lemma_wf_frame(old(self), self);
        }
    }

    fn enable_cache(&mut self)
        requires
            old(self).wf(),
        ensures
            final(self)@ == old(self)@,
            final(self).cache() == (CacheView { cache_enabled: true, ..old(self).cache() }),
            final(self).cache_enabled,
            final(self).wf(),
    {
        self.cache_enabled = true;
        proof {
            crate::handlers::lemma_wf_frame(old(self), self);
        }
    }

    /// One turn of the top-level loop: the hart executes until something needs
    /// the host, and says what. `budget` bounds the pass over the instructions:
    /// blocks with the cache, instructions without it. The host polls for
    /// signals between turns.
    pub fn run(&mut self, budget: u64) -> (r: ExitReason)
        requires
            old(self).wf(),
        ensures
            (final(self)@, r) == run_spec(old(self)@, budget as nat, old(self).cache_enabled),
            final(self).cache() == cache_after_run(old(self).cache(), old(self)@, budget as nat),
            final(self).cache_enabled == old(self).cache_enabled,
            final(self).wf(),
    {
        if self.trap.is_none() {
            self.take_pending_jump();
            proof {
                crate::handlers::lemma_wf_frame(old(self), self);
            }
            if self.wfi {
                return ExitReason::Wfi;
            }
            self.make_pass(budget);
        }
        let ghost mid = *self;
        let r = self.settle_turn();
        proof {
            crate::handlers::lemma_wf_frame(&mid, self);
        }
        r
    }
}

} // verus!
