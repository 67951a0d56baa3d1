//! The manager of the proxy core: who runs it, and what is held for it.

pub mod by_service;
pub mod config;
pub mod config_laws;
pub mod control;
pub mod control_laws;
pub mod decisions;
pub mod handoff;
pub mod handoff_laws;
pub mod invariants;
pub mod laws;
pub mod ownership;
pub mod ownership_laws;
pub mod sidecar;
pub mod sidecar_laws;
pub mod start_laws;
pub mod startup;

use self::decisions::sidecar_owner_matches;
use crate::error::{CoreError, Message};
use crate::platform::Platform;
use crate::service::ics::WindowsIcsTransactions;
use crate::win32::wait_timeout;
use vstd::prelude::*;

verus! {

/// Who runs the core.
#[derive(Debug, Clone, Copy, PartialEq, Eq, Structural)]
pub enum RunningMode {
    Service,
    Sidecar,
    NotRunning,
}

impl RunningMode {
    /// The wording of the mode's name.
    pub open spec fn name_wording(self) -> Seq<char> {
        match self {
            RunningMode::Service => "Service"@,
            RunningMode::Sidecar => "Sidecar"@,
            RunningMode::NotRunning => "NotRunning"@,
        }
    }

    /// The name of the mode.
    pub fn name(&self) -> (r: &'static str)
        ensures
            r@ == self.name_wording(),
    {
        match self {
            RunningMode::Service => "Service",
            RunningMode::Sidecar => "Sidecar",
            RunningMode::NotRunning => "NotRunning",
        }
    }
}

/// A sidecar process. Generations tell apart sidecars whose process ids are
/// the same; only Windows numbers them.
#[derive(Debug, Clone, Copy, PartialEq, Eq, Structural)]
pub struct SidecarChild {
    pub generation: u64,
    pub pid: u32,
}

/// The sidecar on whose behalf the lease on the core is held.
#[derive(Debug, Clone, Copy, PartialEq, Eq, Structural)]
pub struct SidecarCoreOwner {
    pub generation: u64,
    pub pid: u32,
}

/// The job object that ends a sidecar together with the application.
#[derive(Debug, Clone, Copy, PartialEq, Eq, Structural)]
pub struct SidecarJob {
    pub generation: u64,
}

/// The right to change the configuration, which one caller has at a time. On
/// Windows it comes with a transaction on the ICS recovery target.
#[derive(Debug)]
pub struct ConfigTransactionGuard {
    pub windows_ics_scope: Option<u64>,
}

/// The state of the manager.
#[derive(Debug)]
pub struct CoreManager {
    pub platform: Platform,
    pub running_mode: RunningMode,
    /// When the configuration was last brought up to date, in milliseconds.
    pub last_update: Option<u64>,
    pub child_sidecar: Option<SidecarChild>,
    pub sidecar_job: Option<SidecarJob>,
    pub next_sidecar_generation: u64,
    pub finished_sidecar_generation: u64,
    pub sidecar_core_owner: Option<SidecarCoreOwner>,
    pub config_transaction_held: bool,
    pub handoff_watcher_running: bool,
    pub handoff_watcher_generation: u64,
    /// Whether the sidecar's Run file has TUN turned off for this session,
    /// whatever the configuration says.
    pub windows_sidecar_tun_fallback_active: bool,
    pub windows_ics: WindowsIcsTransactions,
}

/// The number after `n`, starting over after the last one.
pub open spec fn following(n: u64) -> u64 {
    if n == u64::MAX {
        0
    } else {
        (n + 1) as u64
    }
}

impl CoreManager {
    /// On Windows a transaction on the ICS recovery target is under way
    /// exactly while the configuration lock is held; elsewhere never.
    pub open spec fn well_formed(self) -> bool {
        self.windows_ics.active is Some <==> self.platform is Windows
            && self.config_transaction_held
    }

    /// The manager in another running mode.
    pub open spec fn in_mode(self, mode: RunningMode) -> Self {
        CoreManager { running_mode: mode, ..self }
    }

    /// The manager with the TUN fallback turned on or off.
    pub open spec fn with_tun_fallback(self, active: bool) -> Self {
        CoreManager { windows_sidecar_tun_fallback_active: active, ..self }
    }

    /// A manager that runs nothing.
    pub fn new(platform: Platform) -> (r: Self)
        ensures
            r.well_formed(),
            r.platform == platform,
            r.running_mode is NotRunning,
            r.last_update is None,
            r.child_sidecar is None,
            r.sidecar_job is None,
            r.next_sidecar_generation == 1,
            r.finished_sidecar_generation == 0,
            r.sidecar_core_owner is None,
            !r.config_transaction_held,
            !r.handoff_watcher_running,
            r.handoff_watcher_generation == 0,
            !r.windows_sidecar_tun_fallback_active,
            r.windows_ics.next_id == 1,
            r.windows_ics.active is None,
    {
        CoreManager {
            platform,
            running_mode: RunningMode::NotRunning,
            last_update: None,
            child_sidecar: None,
            sidecar_job: None,
            next_sidecar_generation: 1,
            finished_sidecar_generation: 0,
            sidecar_core_owner: None,
            config_transaction_held: false,
            handoff_watcher_running: false,
            handoff_watcher_generation: 0,
            windows_sidecar_tun_fallback_active: false,
            windows_ics: WindowsIcsTransactions::new(),
        }
    }

    /// Who runs the core.
    pub fn get_running_mode(&self) -> (r: RunningMode)
        ensures
            r == self.running_mode,
    {
        self.running_mode
    }

    /// Records who runs the core.
    pub fn set_running_mode(&mut self, mode: RunningMode)
        ensures
            *final(self) == old(self).in_mode(mode),
    {
        self.running_mode = mode;
    }

    /// When the configuration was last brought up to date.
    pub fn get_last_update(&self) -> (r: Option<u64>)
        ensures
            r == self.last_update,
    {
        self.last_update
    }

    /// Records when the configuration was brought up to date.
    pub fn set_last_update(&mut self, time: u64)
        ensures
            *final(self) == (CoreManager { last_update: Some(time), ..*old(self) }),
    {
        self.last_update = Some(time);
    }

    /// Whether the TUN fallback is on.
    pub fn windows_sidecar_tun_fallback_active(&self) -> (r: bool)
        ensures
            r == self.windows_sidecar_tun_fallback_active,
    {
        self.windows_sidecar_tun_fallback_active
    }

    /// Turns the TUN fallback on or off.
    pub fn set_windows_sidecar_tun_fallback_active(&mut self, active: bool)
        ensures
            *final(self) == old(self).with_tun_fallback(active),
    {
        self.windows_sidecar_tun_fallback_active = active;
    }

    /// Whether the records describe one sidecar that runs: the child, the
    /// holder of the lease and the job object belong together.
    pub open spec fn sidecar_recorded(self) -> bool {
        &&& self.running_mode is Sidecar
        &&& self.child_sidecar matches Some(child)
        &&& self.sidecar_core_owner == Some(
            SidecarCoreOwner { generation: child.generation, pid: child.pid },
        )
        &&& self.sidecar_job == Some(SidecarJob { generation: child.generation })
    }

    /// Whether the sidecar runs. `wait_status` is what waiting no time for its
    /// process returned, where there is a job object to ask by; a process that
    /// is not over lets that time out.
    pub fn windows_sidecar_session_is_live(&self, wait_status: u32) -> (r: bool)
        ensures
            r == (self.sidecar_recorded() && wait_status == 258),
    {
        match self.running_mode {
            RunningMode::Sidecar => {},
            _ => {
                return false;
            },
        }
        match (self.child_sidecar, self.sidecar_core_owner, self.sidecar_job) {
            (Some(child), Some(owner), Some(job)) => wait_status == wait_timeout()
                && owner.generation == child.generation && owner.pid == child.pid
                && job.generation == child.generation,
            _ => false,
        }
    }

    /// Forgets the child and returns it.
    pub fn take_child_sidecar(&mut self) -> (r: Option<SidecarChild>)
        ensures
            r == old(self).child_sidecar,
            *final(self) == (CoreManager { child_sidecar: None, ..*old(self) }),
    {
        let child = self.child_sidecar;
        self.child_sidecar = None;
        child
    }

    /// Records the child. On Windows a child that is recorded already stays,
    /// elsewhere it is replaced.
    pub fn set_running_child_sidecar(&mut self, generation: u64, pid: u32) -> (r: Result<
        (),
        CoreError,
    >)
        ensures
            match old(self).child_sidecar {
                Some(existing) if old(self).platform is Windows => {
                    &&& r == Err::<(), CoreError>(
                        CoreError::Plain(
                            (Message::ChildStored {
                                generation: existing.generation,
                                pid: existing.pid,
                            }),
                        ),
                    )
                    &&& *final(self) == *old(self)
                },
                _ => {
                    &&& r == Ok::<(), CoreError>(())
                    &&& *final(self) == (CoreManager {
                        child_sidecar: Some((SidecarChild { generation, pid })),
                        ..*old(self)
                    })
                },
            },
    {
        match (self.child_sidecar, self.platform) {
            (Some(existing), Platform::Windows) => Err(
                CoreError::Plain(
                    Message::ChildStored { generation: existing.generation, pid: existing.pid },
                ),
            ),
            _ => {
                self.child_sidecar = Some(SidecarChild { generation, pid });
                Ok(())
            },
        }
    }

    /// The manager without the child, if that is the given one.
    pub open spec fn without_child(self, generation: u64, pid: u32) -> Self {
        if self.child_sidecar == Some(SidecarChild { generation, pid }) {
            CoreManager { child_sidecar: None, ..self }
        } else {
            self
        }
    }

    fn clear_running_child_sidecar_if_generation(&mut self, generation: u64, pid: u32)
        ensures
            *final(self) == old(self).without_child(generation, pid),
    {
        match self.child_sidecar {
            Some(child) => if child.generation == generation && child.pid == pid {
                self.child_sidecar = None;
            },
            None => {},
        }
    }

    /// Hands out the next generation. They start over after the last one.
    pub fn allocate_sidecar_generation(&mut self) -> (r: u64)
        ensures
            r == old(self).next_sidecar_generation,
            *final(self) == (CoreManager {
                next_sidecar_generation: following(old(self).next_sidecar_generation),
                ..*old(self)
            }),
    {
        let generation = self.next_sidecar_generation;
        self.next_sidecar_generation = generation.wrapping_add(1);
        generation
    }

    /// Records the sidecar that holds the lease, unless one does already.
    pub fn store_sidecar_core_owner(&mut self, generation: u64, pid: u32) -> (r: Result<
        (),
        CoreError,
    >)
        ensures
            match old(self).sidecar_core_owner {
                Some(existing) => {
                    &&& r == Err::<(), CoreError>(
                        CoreError::Plain(
                            (Message::OwnerHeld {
                                generation: existing.generation,
                                pid: existing.pid,
                            }),
                        ),
                    )
                    &&& *final(self) == *old(self)
                },
                None => {
                    &&& r == Ok::<(), CoreError>(())
                    &&& *final(self) == (CoreManager {
                        sidecar_core_owner: Some((SidecarCoreOwner { generation, pid })),
                        ..*old(self)
                    })
                },
            },
    {
        match self.sidecar_core_owner {
            Some(existing) => Err(
                CoreError::Plain(
                    Message::OwnerHeld { generation: existing.generation, pid: existing.pid },
                ),
            ),
            None => {
                self.sidecar_core_owner = Some(SidecarCoreOwner { generation, pid });
                Ok(())
            },
        }
    }

    /// The manager once the sidecar is known to be over: nothing of it is
    /// left, and its generation counts as finished. Where the lease is not
    /// held by just that sidecar, nothing changes.
    pub open spec fn finished(self, generation: u64, pid: u32) -> Self {
        if self.sidecar_core_owner == Some(SidecarCoreOwner { generation, pid }) {
            CoreManager {
                sidecar_core_owner: None,
                running_mode: if self.running_mode is Sidecar {
                    RunningMode::NotRunning
                } else {
                    self.running_mode
                },
                windows_sidecar_tun_fallback_active: false,
                finished_sidecar_generation: if self.finished_sidecar_generation < generation {
                    generation
                } else {
                    self.finished_sidecar_generation
                },
                ..self.without_child(generation, pid).without_job(generation)
            }
        } else {
            self
        }
    }

    /// Takes in that a sidecar is over, and says whether it held the lease.
    /// Where it did, those who wait for the lease are woken.
    pub fn finish_sidecar_generation(&mut self, generation: u64, pid: u32) -> (r: bool)
        ensures
            r == (old(self).sidecar_core_owner == Some((SidecarCoreOwner { generation, pid }))),
            *final(self) == old(self).finished(generation, pid),
    {
        let stored = match self.sidecar_core_owner {
            Some(owner) => Some((owner.generation, owner.pid)),
            None => None,
        };
        if sidecar_owner_matches(stored, generation, pid) {
            self.sidecar_core_owner = None;
            self.clear_running_child_sidecar_if_generation(generation, pid);
            let _released = self.release_sidecar_job_if_generation(generation);
            match self.running_mode {
                RunningMode::Sidecar => self.set_running_mode(RunningMode::NotRunning),
                _ => {},
            }
            self.set_windows_sidecar_tun_fallback_active(false);
            if self.finished_sidecar_generation < generation {
                self.finished_sidecar_generation = generation;
            }
            true
        } else {
            false
        }
    }

    /// What a wait for a sidecar to give the lease back comes to, now that it
    /// was woken or has `timed_out`; nothing, where it goes on.
    pub fn wait_for_sidecar_core_owner_release(
        &self,
        generation: u64,
        pid: u32,
        timed_out: bool,
    ) -> (r: Option<Result<(), CoreError>>)
        ensures
            r == (if self.finished_sidecar_generation >= generation {
                Some(Ok::<(), CoreError>(()))
            } else if timed_out {
                Some(
                    Err::<(), CoreError>(
                        CoreError::Plain((Message::OwnerWaitTimedOut { generation, pid })),
                    ),
                )
            } else {
                None
            }),
    {
        if self.finished_sidecar_generation >= generation {
            Some(Ok(()))
        } else if timed_out {
            Some(Err(CoreError::Plain(Message::OwnerWaitTimedOut { generation, pid })))
        } else {
            None
        }
    }

    /// Records the job object, unless one is recorded already.
    pub fn store_sidecar_job(&mut self, generation: u64) -> (r: Result<(), CoreError>)
        ensures
            match old(self).sidecar_job {
                Some(existing) => {
                    &&& r == Err::<(), CoreError>(
                        CoreError::Plain((Message::JobHeld { generation: existing.generation })),
                    )
                    &&& *final(self) == *old(self)
                },
                None => {
                    &&& r == Ok::<(), CoreError>(())
                    &&& *final(self) == (CoreManager {
                        sidecar_job: Some((SidecarJob { generation })),
                        ..*old(self)
                    })
                },
            },
    {
        match self.sidecar_job {
            Some(existing) => Err(
                CoreError::Plain(Message::JobHeld { generation: existing.generation }),
            ),
            None => {
                self.sidecar_job = Some(SidecarJob { generation });
                Ok(())
            },
        }
    }

    /// The manager without the job object, if that is the generation's.
    pub open spec fn without_job(self, generation: u64) -> Self {
        if self.sidecar_job == Some(SidecarJob { generation }) {
            CoreManager { sidecar_job: None, ..self }
        } else {
            self
        }
    }

    /// Forgets the job object of a generation and returns it.
    pub fn take_sidecar_job_if_generation(&mut self, generation: u64) -> (r: Option<SidecarJob>)
        ensures
            r == (if old(self).sidecar_job == Some((SidecarJob { generation })) {
                old(self).sidecar_job
            } else {
                None
            }),
            *final(self) == old(self).without_job(generation),
    {
        match self.sidecar_job {
            Some(job) => if job.generation == generation {
                self.sidecar_job = None;
                Some(job)
            } else {
                None
            },
            None => None,
        }
    }

    /// Forgets the job object of a generation, and says whether there was one.
    pub fn release_sidecar_job_if_generation(&mut self, generation: u64) -> (r: bool)
        ensures
            r == (old(self).sidecar_job == Some((SidecarJob { generation }))),
            *final(self) == old(self).without_job(generation),
    {
        self.take_sidecar_job_if_generation(generation).is_some()
    }

    /// The manager once the configuration lock has been taken.
    pub open spec fn lock_taken(self) -> Self {
        CoreManager {
            config_transaction_held: true,
            windows_ics: if self.platform is Windows {
                self.windows_ics.begun()
            } else {
                self.windows_ics
            },
            ..self
        }
    }

    /// The guard that taking the configuration lock gives.
    pub open spec fn lock_guard(self) -> ConfigTransactionGuard {
        ConfigTransactionGuard {
            windows_ics_scope: if self.platform is Windows {
                Some(self.windows_ics.next_id)
            } else {
                None
            },
        }
    }

    /// The manager once the configuration lock has been given back.
    pub open spec fn lock_released(self, guard: ConfigTransactionGuard) -> Self {
        CoreManager {
            config_transaction_held: false,
            windows_ics: match guard.windows_ics_scope {
                Some(id) => self.windows_ics.ended(id),
                None => self.windows_ics,
            },
            ..self
        }
    }

    /// Whether a guard is the one that the lock is held by.
    pub open spec fn lock_held_by(self, guard: ConfigTransactionGuard) -> bool {
        &&& self.config_transaction_held
        &&& match guard.windows_ics_scope {
            Some(id) => self.windows_ics.active is Some && self.windows_ics.active->0.id == id,
            None => self.windows_ics.active is None,
        }
    }

    /// Takes the configuration lock, once it is free.
    pub fn begin_config_transaction(&mut self) -> (r: ConfigTransactionGuard)
        requires
            old(self).well_formed(),
            !old(self).config_transaction_held,
        ensures
            final(self).well_formed(),
            *final(self) == old(self).lock_taken(),
            r == old(self).lock_guard(),
            final(self).lock_held_by(r),
    {
        self.config_transaction_held = true;
        match self.platform {
            Platform::Windows => {
                let id = self.windows_ics.begin_windows_ics_config_transaction();
                ConfigTransactionGuard { windows_ics_scope: Some(id) }
            },
            _ => ConfigTransactionGuard { windows_ics_scope: None },
        }
    }

    /// Takes the configuration lock, if it is free.
    pub fn try_begin_config_transaction(&mut self) -> (r: Option<ConfigTransactionGuard>)
        requires
            old(self).well_formed(),
        ensures
            final(self).well_formed(),
            old(self).config_transaction_held ==> r is None && *final(self) == *old(self),
            !old(self).config_transaction_held ==> r == Some(old(self).lock_guard())
                && *final(self) == old(self).lock_taken() && final(self).lock_held_by(r->0),
    {
        if self.config_transaction_held {
            None
        } else {
            Some(self.begin_config_transaction())
        }
    }

    /// Gives the configuration lock back. What was snapshotted under it can no
    /// longer be returned to.
    pub fn end_config_transaction(&mut self, guard: ConfigTransactionGuard)
        requires
            old(self).well_formed(),
            old(self).lock_held_by(guard),
        ensures
            final(self).well_formed(),
            *final(self) == old(self).lock_released(guard),
            final(self).windows_ics.active is None,
    {
        match guard.windows_ics_scope {
            Some(id) => self.windows_ics.end_windows_ics_config_transaction(id),
            None => {},
        }
        self.config_transaction_held = false;
    }
}

} // verus!
