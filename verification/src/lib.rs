//! A verified execution core for hosts that run WebAssembly functions.
//!
//! The crate covers what stands between a caller and the engine that runs a
//! function body: typed values and their guest representation, function
//! signatures and the adapter around host callables, metering against a
//! statistics sink, and the life cycle of a suspendable call.

pub mod async_func;
pub mod async_state;
pub mod config;
pub mod error;
pub mod executor;
pub mod func;
pub mod statistics;
pub mod value;

pub use async_func::{AsyncFunc, CallProgress, HostAnswer, Progress};
pub use async_state::{AsyncEvent, AsyncState, AsyncStatus};
pub use config::{CommonConfigOptions, Config, ConfigBuilder};
pub use error::{ExecError, HostFuncError, Trap};
pub use executor::{CallingFrame, Executor, ModuleId};
pub use func::{Func, FuncRef, FuncType};
pub use statistics::Statistics;
pub use value::{from_guest, marshal, to_guest, unmarshal, RawValue, RefType, ValType, WasmValue};
