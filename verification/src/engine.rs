//! The wasmtime engine and the guest component: the engine is configured for
//! the component model and async calls, and the guest's core module is
//! wrapped into a component with the WASI preview 1 adapter, then compiled.

use vstd::prelude::*;
use wit_component::ComponentEncoder;

mod built;

pub use self::built::{CompileFailure, ConfiguredEngine, GuestComponent};
use self::built::{component_from_binary, engine_new};

verus! {

/// wasmtime's engine, held opaque.
#[verifier::external_type_specification]
#[verifier::external_body]
pub struct ExEngine(wasmtime::Engine);

/// A compiled wasmtime component, held opaque.
#[verifier::external_type_specification]
#[verifier::external_body]
pub struct ExComponent(wasmtime::component::Component);

/// Why the guest component could not be made, with the message of the
/// library that refused it.
#[derive(Debug)]
pub enum ComponentError {
    /// The core module was refused.
    Module(String),
    /// The adapter was refused.
    Adapter(String),
    /// The component could not be encoded.
    Encode(String),
    /// The encoded component could not be compiled.
    Compile(CompileFailure),
}

/// The engine features that the host turns on or off.
#[derive(PartialEq, Eq, Structural)]
pub struct EngineSettings {
    pub component_model: bool,
    pub async_support: bool,
}

/// Whether `ComponentEncoder::default().module(module)` accepts the core
/// module `module`.
pub uninterp spec fn module_accepted(module: Seq<u8>) -> bool;

/// Whether, after accepting `module`, the encoder accepts `adapter` as the
/// adapter for the module named `name` (`ComponentEncoder::adapter`).
pub uninterp spec fn adapter_accepted(module: Seq<u8>, name: Seq<char>, adapter: Seq<u8>) -> bool;

/// The component binary that `ComponentEncoder::encode` gives after the
/// encoder accepted `module` and the adapter `adapter` for `name`, or `None`
/// where encoding fails.
pub uninterp spec fn encoded_component(module: Seq<u8>, name: Seq<char>, adapter: Seq<u8>) -> Option<Seq<u8>>;

/// What making the component binary from `module`, with `adapter` standing
/// in for the module `name`, gives: the error of the first step that fails,
/// or the encoded binary.
pub open spec fn encoding_outcome(module: Seq<u8>, name: Seq<char>, adapter: Seq<u8>, r: Result<Seq<u8>, ComponentError>) -> bool {
    if !module_accepted(module) {
        r matches Err(ComponentError::Module(_))
    } else if !adapter_accepted(module, name, adapter) {
        r matches Err(ComponentError::Adapter(_))
    } else {
        match encoded_component(module, name, adapter) {
            None => r matches Err(ComponentError::Encode(_)),
            Some(binary) => r == Ok::<Seq<u8>, ComponentError>(binary),
        }
    }
}

/// The bytes of an encoding result, as a sequence.
pub open spec fn bytes_of(r: Result<Vec<u8>, ComponentError>) -> Result<Seq<u8>, ComponentError> {
    match r {
        Ok(b) => Ok(b@),
        Err(e) => Err(e),
    }
}

/// wit-component's `ComponentEncoder::default().module(module)`, then
/// `.adapter(name, adapter)`, then `.encode()`; the error of the first step
/// that fails is given by its message, tagged with that step.
///
/// Claimed: the outcome of each step is a function of `module`, `name` and
/// `adapter` alone (the encoder starts from its default, reads no
/// environment and iterates ordered maps), as the three names state. The
/// intermediate encoder cannot be described to verified code, so the three
/// calls stand together here, from plain values to plain values.
#[verifier::external_body]
fn encode_with_adapter(module: &[u8], name: &str, adapter: &[u8]) -> (r: Result<Vec<u8>, ComponentError>)
    ensures
        r is Err && r->Err_0 is Module <==> !module_accepted(module@),
        r is Err && r->Err_0 is Adapter <==> (module_accepted(module@) && !adapter_accepted(module@, name@, adapter@)),
        r is Err && r->Err_0 is Encode <==> (module_accepted(module@) && adapter_accepted(module@, name@, adapter@) && encoded_component(module@, name@, adapter@) is None),
        r is Err ==> !(r->Err_0 is Compile),
        r is Ok ==> encoded_component(module@, name@, adapter@) == Some(r->Ok_0@),
{
    let encoder = match ComponentEncoder::default().module(module) {
        Ok(encoder) => encoder,
        Err(e) => return Err(ComponentError::Module(format!("{}", e))),
    };
    let encoder = match encoder.adapter(name, adapter) {
        Ok(encoder) => encoder,
        Err(e) => return Err(ComponentError::Adapter(format!("{}", e))),
    };
    match encoder.encode() {
        Ok(binary) => Ok(binary),
        Err(e) => Err(ComponentError::Encode(format!("{}", e))),
    }
}

/// The name of the module that the adapter stands in for.
pub fn adapter_name() -> (r: &'static str)
    ensures
        r@ == "wasi_snapshot_preview1"@,
{
    "wasi_snapshot_preview1"
}

/// The engine settings of the host: the component model and async support
/// are both on.
pub fn engine_settings() -> (r: EngineSettings)
    ensures
        r.component_model,
        r.async_support,
{
    EngineSettings { component_model: true, async_support: true }
}

/// Creates an engine with the component model and async support enabled.
pub fn create_engine() -> (r: Result<ConfiguredEngine, String>)
    ensures
        r is Ok ==> r->Ok_0.settings().component_model && r->Ok_0.settings().async_support,
        r is Ok ==> r->Ok_0.settings() == (EngineSettings { component_model: true, async_support: true }),
{
    engine_new(engine_settings())
}

/// Wraps the core module `module` into a component, with `adapter` standing
/// in for `wasi_snapshot_preview1`: the error of the first step that fails,
/// or the encoded component.
pub fn encode_component(module: &[u8], adapter: &[u8]) -> (r: Result<Vec<u8>, ComponentError>)
    ensures
        encoding_outcome(module@, "wasi_snapshot_preview1"@, adapter@, bytes_of(r)),
{
    encode_with_adapter(module, adapter_name(), adapter)
}

/// What making the guest component gives: the error of the first encoding
/// step that fails; otherwise either the component compiled from the encoded
/// binary, or a compile error.
pub open spec fn component_outcome(module: Seq<u8>, adapter: Seq<u8>, r: Result<GuestComponent, ComponentError>) -> bool {
    let name = "wasi_snapshot_preview1"@;
    match r {
        Ok(c) => encoding_outcome(module, name, adapter, Ok(c.binary())),
        Err(ComponentError::Compile(failure)) => module_accepted(module) && adapter_accepted(module, name, adapter)
            && encoded_component(module, name, adapter) == Some(failure.binary()),
        Err(e) => encoding_outcome(module, name, adapter, Err(e)),
    }
}

/// Makes the guest component from its core module and the adapter, and
/// compiles it with `engine`: the error of the first step that fails, or the
/// component compiled from the encoded binary.
pub fn create_component(engine: &ConfiguredEngine, module: &[u8], adapter: &[u8]) -> (r: Result<GuestComponent, ComponentError>)
    ensures
        component_outcome(module@, adapter@, r),
{
    let binary = match encode_component(module, adapter) {
        Ok(binary) => binary,
        Err(e) => return Err(e),
    };
    match component_from_binary(engine.engine(), binary) {
        Ok(component) => Ok(component),
        Err(failure) => Err(ComponentError::Compile(failure)),
    }
}

/// Making the guest component twice from the same module and adapter gives
/// the same outcome, but for compiling: the same encoding error, or
/// components compiled from the same binary.
pub proof fn lemma_component_deterministic(
    module: Seq<u8>,
    adapter: Seq<u8>,
    r1: Result<GuestComponent, ComponentError>,
    r2: Result<GuestComponent, ComponentError>,
)
    requires
        component_outcome(module, adapter, r1),
        component_outcome(module, adapter, r2),
    ensures
        (r1 matches Err(ComponentError::Module(_))) == (r2 matches Err(ComponentError::Module(_))),
        (r1 matches Err(ComponentError::Adapter(_))) == (r2 matches Err(ComponentError::Adapter(_))),
        (r1 matches Err(ComponentError::Encode(_))) == (r2 matches Err(ComponentError::Encode(_))),
        r1 is Ok && r2 is Ok ==> r1->Ok_0.binary() == r2->Ok_0.binary(),
{
}

/// Every engine that `create_engine` makes was made with the same settings,
/// and those turn both the component model and async support on: no engine
/// of the host lacks either.
pub proof fn lemma_engines_agree(e1: ConfiguredEngine, e2: ConfiguredEngine)
    requires
        e1.settings() == (EngineSettings { component_model: true, async_support: true }),
        e2.settings() == (EngineSettings { component_model: true, async_support: true }),
    ensures
        e1.settings() == e2.settings(),
        e1.settings().component_model && e1.settings().async_support,
        !(e1.settings() == (EngineSettings { component_model: true, async_support: false })),
{
}

/// Once the module and adapter are accepted and encoded, making the guest
/// component compiles exactly the encoded binary: the component it gives, or
/// the compile failure it reports, is of that binary and no other. A compile
/// failure is reported only where encoding succeeded.
pub proof fn lemma_compile_outcome_is_of_the_encoding(
    module: Seq<u8>,
    adapter: Seq<u8>,
    r: Result<GuestComponent, ComponentError>,
)
    requires
        component_outcome(module, adapter, r),
    ensures
        r is Ok ==> encoded_component(module, "wasi_snapshot_preview1"@, adapter) == Some(r->Ok_0.binary()),
        r matches Err(ComponentError::Compile(f)) ==> encoded_component(module, "wasi_snapshot_preview1"@, adapter) == Some(f.binary()),
        (r is Ok || r matches Err(ComponentError::Compile(_))) <==> (module_accepted(module)
            && adapter_accepted(module, "wasi_snapshot_preview1"@, adapter)
            && encoded_component(module, "wasi_snapshot_preview1"@, adapter) is Some),
{
}

/// Two attempts to make the guest component from the same module and adapter
/// compile the same binary: components or compile failures, they carry the
/// same encoding.
pub proof fn lemma_attempts_compile_the_same_binary(
    module: Seq<u8>,
    adapter: Seq<u8>,
    r1: Result<GuestComponent, ComponentError>,
    r2: Result<GuestComponent, ComponentError>,
)
    requires
        component_outcome(module, adapter, r1),
        component_outcome(module, adapter, r2),
    ensures
        r1 is Ok ==> (r2 matches Err(ComponentError::Compile(f)) ==> r1->Ok_0.binary() == f.binary()),
        r1 is Ok ==> (r2 is Ok ==> r1->Ok_0.binary() == r2->Ok_0.binary()),
        r1 matches Err(ComponentError::Compile(f1)) ==> (r2 matches Err(ComponentError::Compile(f2)) ==> f1.binary() == f2.binary()),
{
}

}
