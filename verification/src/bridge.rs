//! The caller-facing handle registry.
//!
//! Callers across the boundary hold builders and sandboxes as opaque
//! integer handles, with `0` the null sentinel. The registry owns the
//! bridge-side state behind each handle, validates every handle before it
//! is used, and rejects a second release of the same handle instead of
//! corrupting memory: handles are never reused, and a released slot stays
//! empty.

use vstd::prelude::*;

use crate::builder::{
    spec_build, Builder, BuilderModel, BuildPlan, HostFunctionModel,
};
use crate::run::{spec_entry_point_name, entry_point_name, GuestCall};
use crate::status::{
    RUN_NULL_ARGUMENT, STATUS_BAD_NAME_STRING, STATUS_BAD_PATH_STRING, STATUS_MODULE_PATH_UNSET,
    STATUS_NULL_BUILDER_BUILD, STATUS_NULL_BUILDER_REGISTER, STATUS_NULL_BUILDER_SET_PATH,
    STATUS_OK,
};

verus! {

/// Does `h` name a live slot: non-null, within the table, and not yet
/// released?
pub open spec fn slot_live<T>(slots: Seq<Option<T>>, h: u64) -> bool {
    &&& 1 <= h
    &&& h <= slots.len()
    &&& slots[h - 1] is Some
}

/// One release step on a slot table: a live handle's slot is emptied and
/// the release is reported; any other handle — null, out of range, or
/// already released — is rejected and the table is left as it was.
pub open spec fn spec_release<T>(slots: Seq<Option<T>>, h: u64) -> (Seq<Option<T>>, bool) {
    if slot_live(slots, h) {
        (slots.update(h - 1, None), true)
    } else {
        (slots, false)
    }
}

/// Law: release is single-shot. For every slot table and every handle,
/// releasing a live handle empties its slot, and releasing the same handle
/// again is rejected and changes nothing; releasing a handle that is not
/// live — null, out of range, or already released — is always rejected
/// unchanged. Double release is therefore refused by the registry rather
/// than reaching freed memory.
pub proof fn lemma_release_single_shot<T>(slots: Seq<Option<T>>, h: u64)
    ensures
        slot_live(slots, h) ==> ({
            let (after_first, first_released) = spec_release(slots, h);
            let (after_second, second_released) = spec_release(after_first, h);
            &&& first_released
            &&& !second_released
            &&& after_second == after_first
        }),
        !slot_live(slots, h) ==> spec_release(slots, h) == (slots, false),
{
    if slot_live(slots, h) {
        let (after_first, _) = spec_release(slots, h);
        assert(after_first[h - 1] is None);
    }
}

/// What the bridge records of one loaded sandbox: the module it runs.
pub struct SandboxRecord {
    pub module_location: String,
}

/// The registry's state, to the specification: one slot per handle ever
/// handed out, in order, `None` once released. A sandbox slot records the
/// path of the module the sandbox was loaded from.
#[verifier::ext_equal]
pub struct BridgeModel {
    pub builders: Seq<Option<BuilderModel>>,
    pub sandboxes: Seq<Option<Seq<char>>>,
}

impl BridgeModel {
    /// A fresh registry: nothing handed out yet.
    pub open spec fn init() -> BridgeModel {
        BridgeModel { builders: Seq::empty(), sandboxes: Seq::empty() }
    }
}

/// Does `h` name a live builder?
pub open spec fn builder_live(m: BridgeModel, h: u64) -> bool {
    slot_live(m.builders, h)
}

/// Does `h` name a live sandbox?
pub open spec fn sandbox_live(m: BridgeModel, h: u64) -> bool {
    slot_live(m.sandboxes, h)
}

/// The handle registry.
pub struct Bridge {
    builders: Vec<Option<Builder>>,
    sandboxes: Vec<Option<SandboxRecord>>,
}

impl View for Bridge {
    type V = BridgeModel;

    closed spec fn view(&self) -> BridgeModel {
        BridgeModel {
            builders: self.builders@.map_values(
                |slot: Option<Builder>|
                    match slot {
                        None => None,
                        Some(b) => Some(b@),
                    },
            ),
            sandboxes: self.sandboxes@.map_values(
                |slot: Option<SandboxRecord>|
                    match slot {
                        None => None,
                        Some(s) => Some(s.module_location@),
                    },
            ),
        }
    }
}

impl Bridge {
    /// An empty registry.
    pub fn new() -> (r: Bridge)
        ensures
            r@ == BridgeModel::init(),
    {
        let r = Bridge { builders: Vec::new(), sandboxes: Vec::new() };
        proof {
            assert(r@ =~= BridgeModel::init());
        }
        r
    }

    /// Is `h` a live builder handle?
    pub fn builder_handle_live(&self, h: u64) -> (r: bool)
        ensures
            r == builder_live(self@, h),
    {
        if h >= 1 && h - 1 < self.builders.len() as u64 {
            let idx: usize = (h - 1) as usize;
            self.builders[idx].is_some()
        } else {
            false
        }
    }

    /// Is `h` a live sandbox handle?
    pub fn sandbox_handle_live(&self, h: u64) -> (r: bool)
        ensures
            r == sandbox_live(self@, h),
    {
        if h >= 1 && h - 1 < self.sandboxes.len() as u64 {
            let idx: usize = (h - 1) as usize;
            self.sandboxes[idx].is_some()
        } else {
            false
        }
    }

    /// How many builder handles were ever handed out.
    pub fn builder_slot_count(&self) -> (n: u64)
        ensures
            n == self@.builders.len(),
    {
        proof {
            assert(self@.builders.len() == self.builders@.len());
        }
        self.builders.len() as u64
    }

    /// How many sandbox handles were ever handed out.
    pub fn sandbox_slot_count(&self) -> (n: u64)
        ensures
            n == self@.sandboxes.len(),
    {
        proof {
            assert(self@.sandboxes.len() == self.sandboxes@.len());
        }
        self.sandboxes.len() as u64
    }

    /// Hands out a new builder with the default envelope and an empty
    /// registry. Never fails; the handle is non-null and was never handed
    /// out before.
    pub fn sandbox_builder_new(&mut self) -> (h: u64)
        requires
            old(self)@.builders.len() < u64::MAX,
        ensures
            final(self)@.builders == old(self)@.builders.push(Some(BuilderModel::init())),
            final(self)@.sandboxes == old(self)@.sandboxes,
            h == old(self)@.builders.len() + 1,
            builder_live(final(self)@, h),
    {
        let idx: usize = self.builders.len();
        self.builders.push(Some(Builder::new()));
        proof {
            assert(self@.builders =~= old(self)@.builders.push(Some(BuilderModel::init())));
        }
        (idx as u64) + 1
    }

    /// Releases a builder handle. A live handle's slot is emptied and the
    /// release is reported; null, out-of-range, and already-released
    /// handles are rejected unchanged — a double free never reaches a
    /// freed builder.
    pub fn sandbox_builder_free(&mut self, h: u64) -> (freed: bool)
        ensures
            (final(self)@.builders, freed) == spec_release(old(self)@.builders, h),
            final(self)@.sandboxes == old(self)@.sandboxes,
    {
        if self.builder_handle_live(h) {
            proof {
                assert(self.builders.len() == self.builders@.len());
                assert(self@.builders.len() == self.builders@.len());
            }
            let idx: usize = (h - 1) as usize;
            let slot = &mut self.builders[idx];
            *slot = None;
            proof {
                assert(self@.builders =~= old(self)@.builders.update(h - 1, None));
            }
            true
        } else {
            false
        }
    }

    /// Records the guest module location on a live builder, overwriting
    /// any previous value. Reports the null-builder code for a dead
    /// handle, the bad-string code for an unreadable path, and success —
    /// exactly then — otherwise; on anything but success the registry is
    /// untouched.
    pub fn sandbox_builder_set_module_path(&mut self, h: u64, path: Option<String>) -> (status:
        u32)
        ensures
            !builder_live(old(self)@, h) ==> status == STATUS_NULL_BUILDER_SET_PATH && final(self)@
                == old(self)@,
            builder_live(old(self)@, h) && path is None ==> status == STATUS_BAD_PATH_STRING
                && final(self)@ == old(self)@,
            path matches Some(p) ==> builder_live(old(self)@, h) ==> {
                &&& status == STATUS_OK
                &&& final(self)@.builders == old(self)@.builders.update(
                    h - 1,
                    Some((old(self)@.builders[h - 1]->0).with_module_path(p@)),
                )
                &&& final(self)@.sandboxes == old(self)@.sandboxes
            },
            status == STATUS_OK <==> builder_live(old(self)@, h) && path is Some,
    {
        if !self.builder_handle_live(h) {
            return STATUS_NULL_BUILDER_SET_PATH;
        }
        match path {
            None => STATUS_BAD_PATH_STRING,
            Some(p) => {
                let ghost path_view = p@;
                proof {
                    assert(self.builders.len() == self.builders@.len());
                    assert(self@.builders.len() == self.builders@.len());
                }
                let idx: usize = (h - 1) as usize;
                let slot = &mut self.builders[idx];
                match slot {
                    Some(b) => {
                        b.set_module_path(p);
                    },
                    None => {},
                }
                proof {
                    assert(self@.builders =~= old(self)@.builders.update(
                        h - 1,
                        Some((old(self)@.builders[h - 1]->0).with_module_path(path_view)),
                    ));
                }
                STATUS_OK
            },
        }
    }

    /// Appends one host-function registration to a live builder: the name
    /// the guest will call, the context token handed back verbatim on
    /// every invocation, and the opaque token of the raw callback. Names
    /// are not deduplicated. Reports the null-builder code for a dead
    /// handle, the bad-string code for an unreadable name, and success —
    /// exactly then — otherwise; on anything but success the registry is
    /// untouched.
    pub fn sandbox_builder_register_host_function(
        &mut self,
        h: u64,
        context: u64,
        name: Option<String>,
        callback: u64,
    ) -> (status: u32)
        ensures
            !builder_live(old(self)@, h) ==> status == STATUS_NULL_BUILDER_REGISTER && final(self)@
                == old(self)@,
            builder_live(old(self)@, h) && name is None ==> status == STATUS_BAD_NAME_STRING
                && final(self)@ == old(self)@,
            name matches Some(n) ==> builder_live(old(self)@, h) ==> {
                &&& status == STATUS_OK
                &&& final(self)@.builders == old(self)@.builders.update(
                    h - 1,
                    Some(
                        (old(self)@.builders[h - 1]->0).with_registration(
                            HostFunctionModel { name: n@, context: context, callback: callback },
                        ),
                    ),
                )
                &&& final(self)@.sandboxes == old(self)@.sandboxes
            },
            status == STATUS_OK <==> builder_live(old(self)@, h) && name is Some,
    {
        if !self.builder_handle_live(h) {
            return STATUS_NULL_BUILDER_REGISTER;
        }
        match name {
            None => STATUS_BAD_NAME_STRING,
            Some(n) => {
                let ghost name_view = n@;
                proof {
                    assert(self.builders.len() == self.builders@.len());
                    assert(self@.builders.len() == self.builders@.len());
                }
                let idx: usize = (h - 1) as usize;
                let slot = &mut self.builders[idx];
                match slot {
                    Some(b) => {
                        b.register_host_function(n, context, callback);
                    },
                    None => {},
                }
                proof {
                    assert(self@.builders =~= old(self)@.builders.update(
                        h - 1,
                        Some(
                            (old(self)@.builders[h - 1]->0).with_registration(
                                HostFunctionModel {
                                    name: name_view,
                                    context: context,
                                    callback: callback,
                                },
                            ),
                        ),
                    ));
                }
                STATUS_OK
            },
        }
    }

    /// Asks a live builder for the plan of one build. Reports the
    /// null-builder code for a dead handle; the missing-module-path code —
    /// with no plan, before anything could reach the engine — when no path
    /// was set; and otherwise success with the full plan: the fixed
    /// envelope, the stored path, and every registration, in order. The
    /// builder itself is read, not changed.
    pub fn sandbox_builder_build(&self, h: u64) -> (r: (u32, Option<BuildPlan>))
        ensures
            !builder_live(self@, h) ==> r.0 == STATUS_NULL_BUILDER_BUILD && r.1 is None,
            builder_live(self@, h) && spec_build(self@.builders[h - 1]->0) is Err ==> r.0
                == STATUS_MODULE_PATH_UNSET && r.1 is None,
            spec_build(self@.builders[h - 1]->0) matches Ok(plan) ==> builder_live(self@, h) ==> {
                &&& r.0 == STATUS_OK
                &&& r.1 matches Some(p) && p@ == plan
            },
            r.0 == STATUS_OK <==> builder_live(self@, h) && (self@.builders[h - 1]->0).module_location
                is Some,
    {
        if !self.builder_handle_live(h) {
            return (STATUS_NULL_BUILDER_BUILD, None);
        }
        proof {
            assert(self.builders.len() == self.builders@.len());
            assert(self@.builders.len() == self.builders@.len());
        }
        let idx: usize = (h - 1) as usize;
        match &self.builders[idx] {
            Some(b) => match b.build() {
                Ok(plan) => (STATUS_OK, Some(plan)),
                Err(_) => (STATUS_MODULE_PATH_UNSET, None),
            },
            None => (STATUS_NULL_BUILDER_BUILD, None),
        }
    }

    /// Admits one engine-built sandbox into the registry, recording the
    /// module it was loaded from, and hands out its handle: non-null and
    /// never handed out before.
    pub fn record_loaded_sandbox(&mut self, module_location: String) -> (h: u64)
        requires
            old(self)@.sandboxes.len() < u64::MAX,
        ensures
            final(self)@.sandboxes == old(self)@.sandboxes.push(Some(module_location@)),
            final(self)@.builders == old(self)@.builders,
            h == old(self)@.sandboxes.len() + 1,
            sandbox_live(final(self)@, h),
    {
        let ghost location_view = module_location@;
        let idx: usize = self.sandboxes.len();
        self.sandboxes.push(Some(SandboxRecord { module_location }));
        proof {
            assert(self@.sandboxes =~= old(self)@.sandboxes.push(Some(location_view)));
        }
        (idx as u64) + 1
    }

    /// Releases a sandbox handle. A live handle's slot is emptied and the
    /// release is reported; null, out-of-range, and already-released
    /// handles are rejected unchanged — a double free never reaches a
    /// released sandbox.
    pub fn sandbox_free(&mut self, h: u64) -> (freed: bool)
        ensures
            (final(self)@.sandboxes, freed) == spec_release(old(self)@.sandboxes, h),
            final(self)@.builders == old(self)@.builders,
    {
        if self.sandbox_handle_live(h) {
            proof {
                assert(self.sandboxes.len() == self.sandboxes@.len());
                assert(self@.sandboxes.len() == self.sandboxes@.len());
            }
            let idx: usize = (h - 1) as usize;
            let slot = &mut self.sandboxes[idx];
            *slot = None;
            proof {
                assert(self@.sandboxes =~= old(self)@.sandboxes.update(h - 1, None));
            }
            true
        } else {
            false
        }
    }

    /// Forms the one guest call a run makes, or refuses it at the
    /// boundary. A null or dead sandbox handle, like an absent data
    /// buffer, is refused with the fixed boundary code — and exactly then,
    /// so no engine call is owed. Otherwise the call carries the guest
    /// entry point, exactly the caller's bytes — every one of them and no
    /// byte beyond — and their count as the entry point's signed-integer
    /// argument.
    pub fn sandbox_run_request(&self, h: u64, data: Option<Vec<u8>>) -> (r: Result<
        GuestCall,
        i32,
    >)
        ensures
            r is Err <==> !sandbox_live(self@, h) || data is None,
            r matches Err(code) ==> code == RUN_NULL_ARGUMENT,
            r matches Ok(call) ==> {
                &&& call.entry_point@ == spec_entry_point_name()
                &&& call.data@ == data->0@
                &&& call.length_argument == data->0@.len() as i32
            },
    {
        if !self.sandbox_handle_live(h) {
            return Err(RUN_NULL_ARGUMENT);
        }
        match data {
            None => Err(RUN_NULL_ARGUMENT),
            Some(bytes) => {
                let length_argument: i32 = #[verifier::truncate] (bytes.len() as i32);
                Ok(GuestCall { entry_point: entry_point_name(), data: bytes, length_argument })
            },
        }
    }
}

} // verus!
