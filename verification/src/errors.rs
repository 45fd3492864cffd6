//! Errors of the kernel's boot and shutdown.

use vstd::prelude::*;

verus! {

#[derive(Debug)]
pub enum KernelError {
    ConfigLoad(String),
    ServiceInit(String),
    ServiceStart(String),
    ServiceShutdown(String),
    InvalidStateTransition(String, String),
    MissingDependency(String),
}

/// The message a kernel error is displayed with.
pub open spec fn kernel_error_message(e: KernelError) -> Seq<char> {
    match e {
        KernelError::ConfigLoad(m) => "Configuration load failed: "@ + m@,
        KernelError::ServiceInit(m) => "Service initialization failed: "@ + m@,
        KernelError::ServiceStart(m) => "Service start failed: "@ + m@,
        KernelError::ServiceShutdown(m) => "Service shutdown failed: "@ + m@,
        KernelError::InvalidStateTransition(from, to) => "State transition invalid: "@ + from@ + " -> "@
            + to@,
        KernelError::MissingDependency(m) => "Dependency missing: "@ + m@,
    }
}

impl KernelError {
    pub fn to_string(&self) -> (res: String)
        ensures
            res@ == kernel_error_message(*self),
    {
        match self {
            KernelError::ConfigLoad(m) => {
                let mut s = String::from_str("Configuration load failed: ");
                s.append(m.as_str());
                s
            },
            KernelError::ServiceInit(m) => {
                let mut s = String::from_str("Service initialization failed: ");
                s.append(m.as_str());
                s
            },
            KernelError::ServiceStart(m) => {
                let mut s = String::from_str("Service start failed: ");
                s.append(m.as_str());
                s
            },
            KernelError::ServiceShutdown(m) => {
                let mut s = String::from_str("Service shutdown failed: ");
                s.append(m.as_str());
                s
            },
            KernelError::InvalidStateTransition(from, to) => {
                let mut s = String::from_str("State transition invalid: ");
                s.append(from.as_str());
                s.append(" -> ");
                s.append(to.as_str());
                s
            },
            KernelError::MissingDependency(m) => {
                let mut s = String::from_str("Dependency missing: ");
                s.append(m.as_str());
                s
            },
        }
    }
}

} // verus!
