use vstd::prelude::*;
use vstd::string::*;

verus! {

#[verifier::external_type_specification]
#[verifier::external_body]
pub struct ExIoError(std::io::Error);

/// The single error type of the toolkit. Every failure of the graphics
/// backend is folded into exactly one of these kinds.
#[derive(Debug)]
pub enum ToolkitError {
    /// A backend failure, with the backend's own message.
    BackendError(String),
    /// The text subsystem hit an I/O fault while starting.
    TextSubsystemIOError(std::io::Error),
    /// A width, height or other integer did not fit what the backend takes.
    IntegerOverflow,
    /// The text subsystem had already been started.
    AlreadyInitialized,
    /// A texture width had to be a multiple of two for its pixel format.
    DimensionNotEven,
    /// Text that the font's charset cannot encode.
    InvalidText,
    /// An operation needed a tab and none has been created.
    NoTabs,
}

/// Relies on `<std::io::Error as Display>::to_string`: the error's text.
/// What it says depends on the platform, so nothing is stated of it.
#[verifier::external_body]
fn io_error_text(e: &std::io::Error) -> (r: String) {
    e.to_string()
}

pub open spec fn backend_prefix() -> Seq<char> {
    "SDL Error: "@
}

pub open spec fn io_prefix() -> Seq<char> {
    "SDL_ttf input/output Error: "@
}

impl ToolkitError {
    /// The fixed sentence for each kind that carries no payload.
    pub open spec fn fixed_message(&self) -> Seq<char> {
        match self {
            ToolkitError::BackendError(_) => backend_prefix(),
            ToolkitError::TextSubsystemIOError(_) => io_prefix(),
            ToolkitError::IntegerOverflow => "Integer overflow"@,
            ToolkitError::AlreadyInitialized => "TTF context already initialized"@,
            ToolkitError::DimensionNotEven => "Input value not a multiple of two"@,
            ToolkitError::InvalidText => "Invalid input text"@,
            ToolkitError::NoTabs => "No tabs have been created"@,
        }
    }

    /// Whether `m` is this error's message: the backend's own message after a
    /// fixed prefix, an I/O fault's text (which depends on the platform)
    /// after another, and a fixed sentence for every other kind.
    pub open spec fn is_message(&self, m: Seq<char>) -> bool {
        match self {
            ToolkitError::BackendError(s) => m == backend_prefix() + s@,
            ToolkitError::TextSubsystemIOError(_) => io_prefix().is_prefix_of(m),
            _ => m == self.fixed_message(),
        }
    }

    /// One human-readable sentence per kind: the backend's message follows
    /// a fixed prefix, an I/O fault's text follows another, and every other
    /// kind has a sentence of its own.
    pub fn message(&self) -> (r: String)
        ensures
            self.is_message(r@),
    {
        match self {
            ToolkitError::BackendError(s) => {
                let mut m = String::from_str("SDL Error: ");
                m.append(s.as_str());
                m
            },
            ToolkitError::TextSubsystemIOError(e) => {
                let text = io_error_text(e);
                let mut m = String::from_str("SDL_ttf input/output Error: ");
                m.append(text.as_str());
                assert(m@.subrange(0, io_prefix().len() as int) =~= io_prefix());
                m
            },
            ToolkitError::IntegerOverflow => String::from_str("Integer overflow"),
            ToolkitError::AlreadyInitialized => String::from_str("TTF context already initialized"),
            ToolkitError::DimensionNotEven => String::from_str("Input value not a multiple of two"),
            ToolkitError::InvalidText => String::from_str("Invalid input text"),
            ToolkitError::NoTabs => String::from_str("No tabs have been created"),
        }
    }
}

/// A failure to build the window, as its description.
#[derive(Debug)]
pub struct WindowBuildFailure {
    pub description: String,
}

/// A failure that is either an integer out of the backend's range or a
/// backend failure with a message.
#[derive(Debug)]
pub enum IntegerOrBackendFailure {
    IntegerOverflows(&'static str, u32),
    Backend(String),
}

/// A failure to start the text subsystem.
#[derive(Debug)]
pub enum TextInitFailure {
    AlreadyInitialized,
    Io(std::io::Error),
}

/// A failure to render text with a font.
#[derive(Debug)]
pub enum FontFailure {
    /// The text has no encoding in the font's charset.
    InvalidLatin1Text,
    Backend(String),
}

/// A failure to create a texture.
#[derive(Debug)]
pub enum TextureFailure {
    WidthOverflows(u32),
    HeightOverflows(u32),
    /// The width must be a multiple of two for the pixel format.
    WidthMustBeMultipleOfTwo(u32),
    Backend(String),
}

impl From<String> for ToolkitError {
    fn from(s: String) -> (r: ToolkitError)
        ensures
            r == ToolkitError::BackendError(s),
    {
        ToolkitError::BackendError(s)
    }
}

impl vstd::std_specs::convert::FromSpecImpl<String> for ToolkitError {
    open spec fn obeys_from_spec() -> bool {
        true
    }

    open spec fn from_spec(s: String) -> ToolkitError {
        ToolkitError::BackendError(s)
    }
}

impl From<WindowBuildFailure> for ToolkitError {
    fn from(e: WindowBuildFailure) -> (r: ToolkitError)
        ensures
            r == ToolkitError::BackendError(e.description),
    {
        ToolkitError::BackendError(e.description)
    }
}

impl vstd::std_specs::convert::FromSpecImpl<WindowBuildFailure> for ToolkitError {
    open spec fn obeys_from_spec() -> bool {
        true
    }

    open spec fn from_spec(e: WindowBuildFailure) -> ToolkitError {
        ToolkitError::BackendError(e.description)
    }
}

pub open spec fn from_integer_or_backend(e: IntegerOrBackendFailure) -> ToolkitError {
    match e {
        IntegerOrBackendFailure::IntegerOverflows(_, _) => ToolkitError::IntegerOverflow,
        IntegerOrBackendFailure::Backend(s) => ToolkitError::BackendError(s),
    }
}

impl From<IntegerOrBackendFailure> for ToolkitError {
    fn from(e: IntegerOrBackendFailure) -> (r: ToolkitError)
        ensures
            r == from_integer_or_backend(e),
    {
        match e {
            IntegerOrBackendFailure::IntegerOverflows(_, _) => ToolkitError::IntegerOverflow,
            IntegerOrBackendFailure::Backend(s) => ToolkitError::BackendError(s),
        }
    }
}

impl vstd::std_specs::convert::FromSpecImpl<IntegerOrBackendFailure> for ToolkitError {
    open spec fn obeys_from_spec() -> bool {
        true
    }

    open spec fn from_spec(e: IntegerOrBackendFailure) -> ToolkitError {
        from_integer_or_backend(e)
    }
}

pub open spec fn from_text_init(e: TextInitFailure) -> ToolkitError {
    match e {
        TextInitFailure::AlreadyInitialized => ToolkitError::AlreadyInitialized,
        TextInitFailure::Io(err) => ToolkitError::TextSubsystemIOError(err),
    }
}

impl From<TextInitFailure> for ToolkitError {
    fn from(e: TextInitFailure) -> (r: ToolkitError)
        ensures
            r == from_text_init(e),
    {
        match e {
            TextInitFailure::AlreadyInitialized => ToolkitError::AlreadyInitialized,
            TextInitFailure::Io(err) => ToolkitError::TextSubsystemIOError(err),
        }
    }
}

impl vstd::std_specs::convert::FromSpecImpl<TextInitFailure> for ToolkitError {
    open spec fn obeys_from_spec() -> bool {
        true
    }

    open spec fn from_spec(e: TextInitFailure) -> ToolkitError {
        from_text_init(e)
    }
}

pub open spec fn from_font(e: FontFailure) -> ToolkitError {
    match e {
        FontFailure::InvalidLatin1Text => ToolkitError::InvalidText,
        FontFailure::Backend(s) => ToolkitError::BackendError(s),
    }
}

impl From<FontFailure> for ToolkitError {
    fn from(e: FontFailure) -> (r: ToolkitError)
        ensures
            r == from_font(e),
    {
        match e {
            FontFailure::InvalidLatin1Text => ToolkitError::InvalidText,
            FontFailure::Backend(s) => ToolkitError::BackendError(s),
        }
    }
}

impl vstd::std_specs::convert::FromSpecImpl<FontFailure> for ToolkitError {
    open spec fn obeys_from_spec() -> bool {
        true
    }

    open spec fn from_spec(e: FontFailure) -> ToolkitError {
        from_font(e)
    }
}

pub open spec fn from_texture(e: TextureFailure) -> ToolkitError {
    match e {
        TextureFailure::WidthOverflows(_) => ToolkitError::IntegerOverflow,
        TextureFailure::HeightOverflows(_) => ToolkitError::IntegerOverflow,
        TextureFailure::WidthMustBeMultipleOfTwo(_) => ToolkitError::DimensionNotEven,
        TextureFailure::Backend(s) => ToolkitError::BackendError(s),
    }
}

impl From<TextureFailure> for ToolkitError {
    fn from(e: TextureFailure) -> (r: ToolkitError)
        ensures
            r == from_texture(e),
    {
        match e {
            TextureFailure::WidthOverflows(_) => ToolkitError::IntegerOverflow,
            TextureFailure::HeightOverflows(_) => ToolkitError::IntegerOverflow,
            TextureFailure::WidthMustBeMultipleOfTwo(_) => ToolkitError::DimensionNotEven,
            TextureFailure::Backend(s) => ToolkitError::BackendError(s),
        }
    }
}

impl vstd::std_specs::convert::FromSpecImpl<TextureFailure> for ToolkitError {
    open spec fn obeys_from_spec() -> bool {
        true
    }

    open spec fn from_spec(e: TextureFailure) -> ToolkitError {
        from_texture(e)
    }
}

} // verus!
