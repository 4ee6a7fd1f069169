//! The sandbox builder: a mutable configuration draft that accumulates a
//! module path and host-function registrations, and on demand produces the
//! validated, immutable plan of one build.
//!
//! The builder validates nothing at registration time: duplicate names are
//! kept, and the module path is only required once a build is asked for.
//! A build is all-or-nothing: either it fails before anything is handed to
//! the engine, or the plan carries every registration, in order.

use vstd::prelude::*;

use crate::config::{spec_envelope, Config};

verus! {

/// One registered host function: the name the guest calls, the opaque
/// context token handed back verbatim on every invocation, and an opaque
/// token standing for the raw host callback. The bridge carries both
/// tokens unchanged and never interprets either.
pub struct HostFunctionEntry {
    pub name: String,
    pub context: u64,
    pub callback: u64,
}

/// What one registration is to the specification.
#[verifier::ext_equal]
pub struct HostFunctionModel {
    pub name: Seq<char>,
    pub context: u64,
    pub callback: u64,
}

impl View for HostFunctionEntry {
    type V = HostFunctionModel;

    open spec fn view(&self) -> HostFunctionModel {
        HostFunctionModel { name: self.name@, context: self.context, callback: self.callback }
    }
}

/// The builder's state, to the specification: an optional module path and
/// the registrations accumulated so far, in registration order.
#[verifier::ext_equal]
pub struct BuilderModel {
    pub module_location: Option<Seq<char>>,
    pub host_functions: Seq<HostFunctionModel>,
}

impl BuilderModel {
    /// A fresh builder: no module path, no registrations.
    pub open spec fn init() -> BuilderModel {
        BuilderModel { module_location: None, host_functions: Seq::empty() }
    }

    /// The state after recording `path`, overwriting any previous value.
    pub open spec fn with_module_path(self, path: Seq<char>) -> BuilderModel {
        BuilderModel { module_location: Some(path), host_functions: self.host_functions }
    }

    /// The state after appending one registration.
    pub open spec fn with_registration(self, f: HostFunctionModel) -> BuilderModel {
        BuilderModel { module_location: self.module_location, host_functions: self.host_functions.push(f) }
    }
}

/// Why a build was refused before the engine was involved.
#[derive(Clone, Copy, PartialEq, Eq, Structural, Debug)]
pub enum BuildError {
    /// No module path was set on the builder.
    MissingModulePath,
}

/// Everything one successful build hands to the engine: the fixed resource
/// envelope, the module to load, and every registration, in order.
pub struct BuildPlan {
    pub config: Config,
    pub module_location: String,
    pub host_functions: Vec<HostFunctionEntry>,
}

/// What one build plan is to the specification.
#[verifier::ext_equal]
pub struct PlanModel {
    pub config: Config,
    pub module_location: Seq<char>,
    pub host_functions: Seq<HostFunctionModel>,
}

impl View for BuildPlan {
    type V = PlanModel;

    open spec fn view(&self) -> PlanModel {
        PlanModel {
            config: self.config,
            module_location: self.module_location@,
            host_functions: self.host_functions@.map_values(|e: HostFunctionEntry| e@),
        }
    }
}

/// What `build` decides, as a function of the builder's state alone: it
/// fails exactly when no module path is set, and otherwise plans the fixed
/// envelope, the stored path, and every registration.
pub open spec fn spec_build(b: BuilderModel) -> Result<PlanModel, BuildError> {
    match b.module_location {
        None => Err(BuildError::MissingModulePath),
        Some(path) => Ok(
            PlanModel {
                config: spec_envelope(),
                module_location: path,
                host_functions: b.host_functions,
            },
        ),
    }
}

/// A build result, to the specification.
pub open spec fn spec_plan_result(r: Result<BuildPlan, BuildError>) -> Result<
    PlanModel,
    BuildError,
> {
    match r {
        Ok(plan) => Ok(plan@),
        Err(e) => Err(e),
    }
}

/// The mutable configuration draft. Exclusively owned by its caller; a
/// build reads it and leaves it as it was.
pub struct Builder {
    module_location: Option<String>,
    host_functions: Vec<HostFunctionEntry>,
}

impl View for Builder {
    type V = BuilderModel;

    closed spec fn view(&self) -> BuilderModel {
        BuilderModel {
            module_location: match self.module_location {
                None => None,
                Some(p) => Some(p@),
            },
            host_functions: self.host_functions@.map_values(|e: HostFunctionEntry| e@),
        }
    }
}

impl Builder {
    /// A new builder with the default envelope and an empty registry.
    /// Never fails.
    pub fn new() -> (b: Builder)
        ensures
            b@ == BuilderModel::init(),
    {
        let b = Builder { module_location: None, host_functions: Vec::new() };
        proof {
            assert(b@ =~= BuilderModel::init());
        }
        b
    }

    /// Records the guest module location, overwriting any previous value.
    /// Whether anything exists at that location is not examined here; that
    /// is deferred to the build.
    pub fn set_module_path(&mut self, path: String)
        ensures
            final(self)@ == old(self)@.with_module_path(path@),
    {
        self.module_location = Some(path);
        proof {
            assert(self@ =~= old(self)@.with_module_path(path@));
        }
    }

    /// Appends one host-function registration. Names are not deduplicated;
    /// if the engine rejects a duplicate or invalid name, that surfaces at
    /// build time, not here.
    pub fn register_host_function(&mut self, name: String, context: u64, callback: u64)
        ensures
            final(self)@ == old(self)@.with_registration(
                HostFunctionModel { name: name@, context: context, callback: callback },
            ),
    {
        let ghost previous = self@;
        let ghost entry_model = HostFunctionModel { name: name@, context: context, callback: callback };
        let entry = HostFunctionEntry { name, context, callback };
        self.host_functions.push(entry);
        proof {
            assert(self@.host_functions =~= previous.host_functions.push(entry_model));
            assert(self@ =~= previous.with_registration(entry_model));
        }
    }

    /// Validates the draft and produces the plan of one build: the fixed
    /// envelope, the stored module path, and every registration, in order.
    /// Fails, touching nothing, exactly when no module path is set.
    pub fn build(&self) -> (r: Result<BuildPlan, BuildError>)
        ensures
            spec_plan_result(r) == spec_build(self@),
            r is Ok <==> self@.module_location is Some,
    {
        match &self.module_location {
            None => Err(BuildError::MissingModulePath),
            Some(path) => {
                let plan = BuildPlan {
                    config: Config::envelope(),
                    module_location: path.clone(),
                    host_functions: clone_entries(&self.host_functions),
                };
                proof {
                    assert(plan@ =~= spec_build(self@)->Ok_0);
                }
                Ok(plan)
            },
        }
    }
}

/// Element-for-element copy of a registration list.
fn clone_entries(v: &Vec<HostFunctionEntry>) -> (r: Vec<HostFunctionEntry>)
    ensures
        r@ == v@,
{
    let mut r: Vec<HostFunctionEntry> = Vec::new();
    let mut i: usize = 0;
    while i < v.len()
        invariant
            i <= v.len(),
            r@ == v@.subrange(0, i as int),
        decreases v.len() - i,
    {
        let e = &v[i];
        r.push(HostFunctionEntry { name: e.name.clone(), context: e.context, callback: e.callback });
        proof {
            assert(r@ =~= v@.subrange(0, i as int + 1));
        }
        i = i + 1;
    }
    proof {
        assert(r@ =~= v@);
    }
    r
}

/// The builder state a whole sequence of registrations leaves behind,
/// applied first to last.
pub open spec fn register_all(b: BuilderModel, regs: Seq<HostFunctionModel>) -> BuilderModel
    decreases regs.len(),
{
    if regs.len() == 0 {
        b
    } else {
        register_all(b.with_registration(regs[0]), regs.skip(1))
    }
}

/// Registrations accumulate exactly: any sequence of them, duplicates and
/// the empty sequence alike, appends precisely that sequence and leaves
/// the module path alone.
pub proof fn lemma_register_all(b: BuilderModel, regs: Seq<HostFunctionModel>)
    ensures
        register_all(b, regs).module_location == b.module_location,
        register_all(b, regs).host_functions == b.host_functions + regs,
    decreases regs.len(),
{
    if regs.len() == 0 {
        assert(b.host_functions + regs =~= b.host_functions);
    } else {
        lemma_register_all(b.with_registration(regs[0]), regs.skip(1));
        assert(b.host_functions.push(regs[0]) + regs.skip(1) =~= b.host_functions + regs);
    }
}

/// Law: a build is all-or-nothing over registrations. After any sequence
/// of `register_host_function` calls — zero, many, or duplicates — a build
/// on a builder with no module path set is refused with the configuration
/// error, before anything reaches the engine; and a build on a builder
/// whose path is set plans every one of its registrations, in order, with
/// the fixed envelope. No plan ever carries a partial registry.
pub proof fn lemma_build_all_or_nothing(b: BuilderModel, regs: Seq<HostFunctionModel>)
    ensures
        b.module_location is None ==> spec_build(register_all(b, regs)) == Err::<
            PlanModel,
            BuildError,
        >(BuildError::MissingModulePath),
        b.module_location matches Some(path) ==> spec_build(register_all(b, regs)) == Ok::<
            PlanModel,
            BuildError,
        >(
            PlanModel {
                config: spec_envelope(),
                module_location: path,
                host_functions: b.host_functions + regs,
            },
        ),
{
    lemma_register_all(b, regs);
}

} // verus!
