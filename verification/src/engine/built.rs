//! Values made by wasmtime, each kept beside what it was made from: an
//! engine with its settings, a compiled component with its binary, and a
//! failure to compile with the binary it failed on. Only this module makes
//! them, so what they report is what wasmtime was handed.

use vstd::prelude::*;
use wasmtime::{Config, Engine};
use wasmtime::component::Component;
use super::EngineSettings;

verus! {

/// An engine, with the settings it was made with.
pub struct ConfiguredEngine {
    engine: Engine,
    settings: EngineSettings,
}

impl ConfiguredEngine {
    /// The settings the engine was made with.
    pub closed spec fn settings(self) -> EngineSettings {
        self.settings
    }

    /// The engine.
    pub fn engine(&self) -> &Engine {
        &self.engine
    }
}

/// A compiled component, with the component binary it was compiled from.
pub struct GuestComponent {
    component: Component,
    binary: Vec<u8>,
}

impl GuestComponent {
    /// The component binary this component was compiled from.
    pub closed spec fn binary(self) -> Seq<u8> {
        self.binary@
    }

    /// The compiled component.
    pub fn component(&self) -> &Component {
        &self.component
    }
}

/// A failure to compile a component binary, with wasmtime's message and the
/// binary it failed on.
#[derive(Debug)]
pub struct CompileFailure {
    message: String,
    binary: Vec<u8>,
}

impl CompileFailure {
    /// The component binary that failed to compile.
    pub closed spec fn binary(self) -> Seq<u8> {
        self.binary@
    }

    /// wasmtime's message.
    pub fn message(&self) -> &String {
        &self.message
    }
}

/// wasmtime's `Config::new`, `Config::wasm_component_model`,
/// `Config::async_support` and `Engine::new`: the configuration is built from
/// `settings`, and the engine is kept beside the settings it was made with;
/// its error is given by its message.
///
/// Claimed: a returned engine holds `settings`. Whether `Engine::new`
/// succeeds is not stated: it depends on the host machine.
#[verifier::external_body]
pub(crate) fn engine_new(settings: EngineSettings) -> (r: Result<ConfiguredEngine, String>)
    ensures
        r is Ok ==> r->Ok_0.settings() == settings,
{
    let mut config = Config::new();
    config.wasm_component_model(settings.component_model);
    config.async_support(settings.async_support);
    match Engine::new(&config) {
        Ok(engine) => Ok(ConfiguredEngine { engine, settings }),
        Err(e) => Err(format!("{}", e)),
    }
}

/// wasmtime's `Component::from_binary`, the component, or the failure with
/// its message, kept beside the binary it was compiled from.
///
/// Claimed: a returned component, and a returned failure, holds `binary`.
/// Whether compiling succeeds is not stated: it depends on the engine and the
/// host machine.
#[verifier::external_body]
pub(crate) fn component_from_binary(engine: &Engine, binary: Vec<u8>) -> (r: Result<GuestComponent, CompileFailure>)
    ensures
        r is Ok ==> r->Ok_0.binary() == binary@,
        r is Err ==> r->Err_0.binary() == binary@,
{
    match Component::from_binary(engine, &binary) {
        Ok(component) => Ok(GuestComponent { component, binary }),
        Err(e) => Err(CompileFailure { message: format!("{}", e), binary }),
    }
}

}
