//! The names that most users of the hub need.

pub use crate::errors::CustomProjectErrors;
pub use crate::mapping::schemas::{
    Application, BaseRequest, BaseService, ByPassRequest, IncomingServiceInfo, MappedError,
    Request, RmqTarget, ServiceInfo, ServiceResponse,
};
pub use crate::rmq::schemas::{Exchange, Queue};
