//! The errors of the renderer, and how GL results turn into them.

use crate::gl::NO_ERROR;
use crate::rect::Rect;
use crate::text::{decimal, decimal_text, hex_text, lower_hex};
use vstd::prelude::*;
use vstd::string::StringExecFns;

verus! {

#[derive(Debug, Clone, PartialEq, Eq)]
pub enum Error {
    /// A texture dimension is zero, or not a power of two where the device
    /// needs one.
    InvalidTextureSize(u32, u32),
    /// The rectangle `target` does not lie within the view `source`.
    InvalidSubTexture { source: Rect, target: Rect },
    /// Image data whose length is not four bytes per texel.
    InvalidImageData { expected: usize, actual: usize },
    /// A shader stage did not compile; holds the info log.
    ShaderCompile(String),
    /// The shader program did not link; holds the info log.
    ShaderLink(String),
    /// The GL error flag was set; holds its code.
    OpenGl(u32),
    /// The GL backend reported a failure in words.
    OpenGlMessage(String),
}

impl Error {
    /// The error in words.
    pub open spec fn text(self) -> Seq<char> {
        match self {
            Error::InvalidTextureSize(width, height) => "Invalid texture size ("@
                + decimal_text(width as nat) + ", "@ + decimal_text(height as nat)
                + "). Ensure that neither dimension is zero."@,
            Error::InvalidSubTexture { source, target } => "Invalid sub texture "@ + target.text()
                + ". It does not lie within "@ + source.text() + "."@,
            Error::InvalidImageData { expected, actual } =>
                "Image data does not match texture storage size. Expected "@
                + decimal_text(expected as nat) + " bytes. Actual "@
                + decimal_text(actual as nat) + " bytes."@,
            Error::ShaderCompile(info_log) => "Shader compile error: "@ + info_log@,
            Error::ShaderLink(info_log) => "Shader link error: "@ + info_log@,
            Error::OpenGl(error_code) => "OpenGL Error: 0x"@ + hex_text(error_code as nat),
            Error::OpenGlMessage(error_msg) => "OpenGL Error: "@ + error_msg@,
        }
    }

    /// The error in words.
    pub fn message(&self) -> (s: String)
        ensures
            s@ == self.text(),
    {
        match self {
            Error::InvalidTextureSize(width, height) => {
                let mut s = String::from_str("Invalid texture size (");
                s.append(decimal(*width as u64).as_str());
                s.append(", ");
                s.append(decimal(*height as u64).as_str());
                s.append("). Ensure that neither dimension is zero.");
                s
            },
            Error::InvalidSubTexture { source, target } => {
                let mut s = String::from_str("Invalid sub texture ");
                s.append(target.to_text().as_str());
                s.append(". It does not lie within ");
                s.append(source.to_text().as_str());
                s.append(".");
                s
            },
            Error::InvalidImageData { expected, actual } => {
                let mut s = String::from_str(
                    "Image data does not match texture storage size. Expected ",
                );
                s.append(decimal(*expected as u64).as_str());
                s.append(" bytes. Actual ");
                s.append(decimal(*actual as u64).as_str());
                s.append(" bytes.");
                s
            },
            Error::ShaderCompile(info_log) => {
                let mut s = String::from_str("Shader compile error: ");
                s.append(info_log.as_str());
                s
            },
            Error::ShaderLink(info_log) => {
                let mut s = String::from_str("Shader link error: ");
                s.append(info_log.as_str());
                s
            },
            Error::OpenGl(error_code) => {
                let mut s = String::from_str("OpenGL Error: 0x");
                s.append(lower_hex(*error_code).as_str());
                s
            },
            Error::OpenGlMessage(error_msg) => {
                let mut s = String::from_str("OpenGL Error: ");
                s.append(error_msg.as_str());
                s
            },
        }
    }
}

pub type Result<T> = std::result::Result<T, Error>;

/// What a GL call that reports failure in words comes to, given the GL error
/// flag read after it: a set flag wins over whatever the call returned.
pub fn gl_result<T>(gl_err: u32, result: std::result::Result<T, String>) -> (r: Result<T>)
    ensures
        gl_err != NO_ERROR ==> r == Err::<T, Error>(Error::OpenGl(gl_err)),
        gl_err == NO_ERROR ==> match result {
            Ok(value) => r == Ok::<T, Error>(value),
            Err(message) => r == Err::<T, Error>(Error::OpenGlMessage(message)),
        },
{
    if gl_err != NO_ERROR {
        Err(Error::OpenGl(gl_err))
    } else {
        match result {
            Ok(value) => Ok(value),
            Err(message) => Err(Error::OpenGlMessage(message)),
        }
    }
}

/// What a value computed by a GL call comes to, given the GL error flag read
/// after it.
pub fn gl_error<T>(gl_err: u32, value: T) -> (r: Result<T>)
    ensures
        gl_err != NO_ERROR ==> r == Err::<T, Error>(Error::OpenGl(gl_err)),
        gl_err == NO_ERROR ==> r == Ok::<T, Error>(value),
{
    if gl_err != NO_ERROR {
        Err(Error::OpenGl(gl_err))
    } else {
        Ok(value)
    }
}

} // verus!
