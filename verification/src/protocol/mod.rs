pub mod codes;
pub mod ctl;
pub mod form_laws;
pub mod laws;
pub mod request;
pub mod results;

pub use ctl::{ErrorCode, Reply, Request, RpcError};
pub use request::{methods, RpcRequest};
pub use results::{
    ok_result, ActResult, RpcState, RpcTaskInfo, RpcWhy, RpcWhyDep, ScreenResult, SpawnResult,
    TaskListResult,
};
