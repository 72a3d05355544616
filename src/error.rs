use vstd::prelude::*;

verus! {

/// Errors that may occur while preparing the engine and processing bytecode.
#[derive(Debug, PartialEq, Eq, Clone)]
pub enum ExecutableError {
    InvalidBytecode(String),
    ConstructorNotFound,
    MemoryError(String),
    MemoryLimits(String),
    LinkerError(String),
    InstantiateFailed(String),
    HeapBaseNotFound,
    FuncNotFound,
    InvalidNumArgs,
    FailedParseFuncArgs(String),
    FailedDeserialize,
    FailedExec(String),
    StackOverflow,
    ModuleNotFound,
    FuelMeteringDisabled(String),
}

/// Errors that may occur while talking to the ledger host.
#[derive(Debug, PartialEq, Eq, Clone)]
pub enum JvmError {
    JvmNotFound,
    JvmCallbackNotFound,
    AttachCurrentThread,
    MethodCall(String),
    ByteArrayConversion,
    GetJavaVM,
    NewGlobalRef,
    NewByteArray,
    NewString,
    ReceiveObject,
    ReceiveByte,
    ReceiveInt,
    ReceiveLong,
    ReceiveBoolean,
}

/// Errors that may occur inside the interpreter while a host function runs.
#[derive(Debug, PartialEq, Eq, Clone)]
pub enum RuntimeError {
    Exception(String),
    MemoryNotFound,
    Utf8Error,
    InvalidResult(String),
    Base58Error,
    ConvertingNumericTypes,
    AssetHolderTypeNotFound,
    AddressVersionNotFound,
    ParseError,
}

/// Every error the engine can report, by family.
#[derive(Debug, PartialEq, Eq, Clone)]
pub enum Error {
    Executable(ExecutableError),
    Jvm(JvmError),
    Runtime(RuntimeError),
}

pub type Result<T, E = Error> = core::result::Result<T, E>;

impl ExecutableError {
    /// The status code of this error: the 100 range.
    pub open spec fn code(&self) -> i32 {
        match self {
            ExecutableError::InvalidBytecode(_) => 100,
            ExecutableError::ConstructorNotFound => 101,
            ExecutableError::MemoryError(_) => 102,
            ExecutableError::MemoryLimits(_) => 103,
            ExecutableError::LinkerError(_) => 104,
            ExecutableError::InstantiateFailed(_) => 105,
            ExecutableError::HeapBaseNotFound => 106,
            ExecutableError::FuncNotFound => 107,
            ExecutableError::InvalidNumArgs => 108,
            ExecutableError::FailedParseFuncArgs(_) => 109,
            ExecutableError::FailedDeserialize => 110,
            ExecutableError::FailedExec(_) => 111,
            ExecutableError::StackOverflow => 112,
            ExecutableError::ModuleNotFound => 113,
            ExecutableError::FuelMeteringDisabled(_) => 114,
        }
    }

    pub fn as_i32(&self) -> (r: i32)
        ensures
            r == self.code(),
    {
        match self {
            ExecutableError::InvalidBytecode(_) => 100,
            ExecutableError::ConstructorNotFound => 101,
            ExecutableError::MemoryError(_) => 102,
            ExecutableError::MemoryLimits(_) => 103,
            ExecutableError::LinkerError(_) => 104,
            ExecutableError::InstantiateFailed(_) => 105,
            ExecutableError::HeapBaseNotFound => 106,
            ExecutableError::FuncNotFound => 107,
            ExecutableError::InvalidNumArgs => 108,
            ExecutableError::FailedParseFuncArgs(_) => 109,
            ExecutableError::FailedDeserialize => 110,
            ExecutableError::FailedExec(_) => 111,
            ExecutableError::StackOverflow => 112,
            ExecutableError::ModuleNotFound => 113,
            ExecutableError::FuelMeteringDisabled(_) => 114,
        }
    }

    /// The same code, as the host bridge's integer type.
    pub fn as_jint(&self) -> (r: i32)
        ensures
            r == self.code(),
    {
        self.as_i32()
    }
}

impl JvmError {
    /// The status code of this error: the 200 range.
    pub open spec fn code(&self) -> i32 {
        match self {
            JvmError::JvmNotFound => 200,
            JvmError::JvmCallbackNotFound => 201,
            JvmError::AttachCurrentThread => 202,
            JvmError::MethodCall(_) => 203,
            JvmError::ByteArrayConversion => 204,
            JvmError::GetJavaVM => 205,
            JvmError::NewGlobalRef => 206,
            JvmError::NewByteArray => 207,
            JvmError::NewString => 208,
            JvmError::ReceiveObject => 209,
            JvmError::ReceiveByte => 210,
            JvmError::ReceiveInt => 211,
            JvmError::ReceiveLong => 212,
            JvmError::ReceiveBoolean => 213,
        }
    }

    pub fn as_i32(&self) -> (r: i32)
        ensures
            r == self.code(),
    {
        match self {
            JvmError::JvmNotFound => 200,
            JvmError::JvmCallbackNotFound => 201,
            JvmError::AttachCurrentThread => 202,
            JvmError::MethodCall(_) => 203,
            JvmError::ByteArrayConversion => 204,
            JvmError::GetJavaVM => 205,
            JvmError::NewGlobalRef => 206,
            JvmError::NewByteArray => 207,
            JvmError::NewString => 208,
            JvmError::ReceiveObject => 209,
            JvmError::ReceiveByte => 210,
            JvmError::ReceiveInt => 211,
            JvmError::ReceiveLong => 212,
            JvmError::ReceiveBoolean => 213,
        }
    }

    /// The same code, as the host bridge's integer type.
    pub fn as_jint(&self) -> (r: i32)
        ensures
            r == self.code(),
    {
        self.as_i32()
    }
}

impl RuntimeError {
    /// The status code of this error: the 300 range.
    pub open spec fn code(&self) -> i32 {
        match self {
            RuntimeError::Exception(_) => 300,
            RuntimeError::MemoryNotFound => 301,
            RuntimeError::Utf8Error => 302,
            RuntimeError::InvalidResult(_) => 303,
            RuntimeError::Base58Error => 304,
            RuntimeError::ConvertingNumericTypes => 305,
            RuntimeError::AssetHolderTypeNotFound => 306,
            RuntimeError::AddressVersionNotFound => 307,
            RuntimeError::ParseError => 308,
        }
    }

    pub fn as_i32(&self) -> (r: i32)
        ensures
            r == self.code(),
    {
        match self {
            RuntimeError::Exception(_) => 300,
            RuntimeError::MemoryNotFound => 301,
            RuntimeError::Utf8Error => 302,
            RuntimeError::InvalidResult(_) => 303,
            RuntimeError::Base58Error => 304,
            RuntimeError::ConvertingNumericTypes => 305,
            RuntimeError::AssetHolderTypeNotFound => 306,
            RuntimeError::AddressVersionNotFound => 307,
            RuntimeError::ParseError => 308,
        }
    }

    /// The same code, as the host bridge's integer type.
    pub fn as_jint(&self) -> (r: i32)
        ensures
            r == self.code(),
    {
        self.as_i32()
    }
}

impl Error {
    /// The status code of this error, taken from its family.
    pub open spec fn code(&self) -> i32 {
        match self {
            Error::Executable(e) => e.code(),
            Error::Jvm(e) => e.code(),
            Error::Runtime(e) => e.code(),
        }
    }

    /// Converting an error to a numeric code of `i32` type.
    pub fn as_i32(&self) -> (r: i32)
        ensures
            r == self.code(),
    {
        match self {
            Error::Executable(e) => e.as_i32(),
            Error::Jvm(e) => e.as_i32(),
            Error::Runtime(e) => e.as_i32(),
        }
    }

    /// Converting an error to the host bridge's integer type.
    pub fn as_jint(&self) -> (r: i32)
        ensures
            r == self.code(),
    {
        self.as_i32()
    }
}

} // verus!
