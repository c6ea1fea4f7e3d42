use vstd::prelude::*;

verus! {

/// The type tag of a configuration value.
#[derive(Clone, Copy, Debug, PartialEq, Eq, Structural)]
pub enum ParamKind {
    Integer,
    String,
    Float,
    Password,
}

/// A single configuration value, tagged by its type.
///
/// A `Float` is held as the bit pattern of an IEEE-754 single-precision number
/// (`f32::to_bits`); it is carried, never computed with. A `Password` is a string
/// that should not be shown as plain text.
#[derive(Debug)]
pub enum ConfigParam {
    Integer(u32),
    String(String),
    Float(u32),
    Password(String),
}

/// Asking a configuration value for a view that its tag does not offer.
#[derive(Clone, Copy, Debug, PartialEq, Eq, Structural)]
pub struct WrongParamType {
    pub expected: ParamKind,
    pub actual: ParamKind,
}

impl Clone for ConfigParam {
    fn clone(&self) -> (r: Self)
        ensures
            r == *self,
    {
        match self {
            ConfigParam::Integer(v) => ConfigParam::Integer(*v),
            ConfigParam::String(s) => ConfigParam::String(s.clone()),
            ConfigParam::Float(b) => ConfigParam::Float(*b),
            ConfigParam::Password(s) => ConfigParam::Password(s.clone()),
        }
    }
}

impl ConfigParam {
    pub open spec fn kind_spec(&self) -> ParamKind {
        match self {
            ConfigParam::Integer(_) => ParamKind::Integer,
            ConfigParam::String(_) => ParamKind::String,
            ConfigParam::Float(_) => ParamKind::Float,
            ConfigParam::Password(_) => ParamKind::Password,
        }
    }

    /// The tag of this value.
    pub fn kind(&self) -> (r: ParamKind)
        ensures
            r == self.kind_spec(),
    {
        match self {
            ConfigParam::Integer(_) => ParamKind::Integer,
            ConfigParam::String(_) => ParamKind::String,
            ConfigParam::Float(_) => ParamKind::Float,
            ConfigParam::Password(_) => ParamKind::Password,
        }
    }

    /// The integer held by an `Integer`; any other tag is an error.
    pub fn as_u32(&self) -> (r: Result<u32, WrongParamType>)
        ensures
            match self {
                ConfigParam::Integer(v) => r == Ok::<u32, WrongParamType>(*v),
                _ => r == Err::<u32, WrongParamType>(
                    WrongParamType { expected: ParamKind::Integer, actual: self.kind_spec() },
                ),
            },
    {
        match self {
            ConfigParam::Integer(v) => Ok(*v),
            _ => Err(WrongParamType { expected: ParamKind::Integer, actual: self.kind() }),
        }
    }

    /// The text held by a `String` or a `Password`; any other tag is an error.
    pub fn as_string(&self) -> (r: Result<String, WrongParamType>)
        ensures
            match self {
                ConfigParam::String(s) => r == Ok::<String, WrongParamType>(*s),
                ConfigParam::Password(s) => r == Ok::<String, WrongParamType>(*s),
                _ => r == Err::<String, WrongParamType>(
                    WrongParamType { expected: ParamKind::String, actual: self.kind_spec() },
                ),
            },
    {
        match self {
            ConfigParam::String(s) => Ok(s.clone()),
            ConfigParam::Password(s) => Ok(s.clone()),
            _ => Err(WrongParamType { expected: ParamKind::String, actual: self.kind() }),
        }
    }

    /// The single-precision bit pattern held by a `Float`; any other tag is an error.
    pub fn as_f32_bits(&self) -> (r: Result<u32, WrongParamType>)
        ensures
            match self {
                ConfigParam::Float(b) => r == Ok::<u32, WrongParamType>(*b),
                _ => r == Err::<u32, WrongParamType>(
                    WrongParamType { expected: ParamKind::Float, actual: self.kind_spec() },
                ),
            },
    {
        match self {
            ConfigParam::Float(b) => Ok(*b),
            _ => Err(WrongParamType { expected: ParamKind::Float, actual: self.kind() }),
        }
    }
}

} // verus!
