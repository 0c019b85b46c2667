use vstd::prelude::*;
use vstd::string::StringSliceAdditionalSpecFns;

verus! {

/// The operating system a plug-in was built for.
#[derive(Clone, Copy, Debug, PartialEq, Eq, Structural)]
pub enum Platform {
    /// Linux, where hosts may offer a run loop.
    Linux,
    /// Any other Unix that is not macOS.
    OtherUnix,
    MacOs,
    Windows,
}

/// The kinds of parent window a host can hand to a view.
#[derive(Clone, Copy, Debug, PartialEq, Eq, Structural)]
pub enum WindowType {
    X11EmbedWindowId,
    NsView,
    Hwnd,
}

/// The parent window an editor is spawned in. Pointers are kept as addresses.
#[derive(Clone, Copy, Debug, PartialEq, Eq, Structural)]
pub enum ParentWindowHandle {
    /// The ID of an X11 window.
    X11Window(u32),
    /// The address of an `NSView`.
    AppKitNsView(usize),
    /// A `HWND`.
    Win32Hwnd(usize),
}

impl Platform {
    /// The one kind of parent window that views support on this platform.
    pub open spec fn supported_window_type(self) -> WindowType {
        match self {
            Platform::Linux | Platform::OtherUnix => WindowType::X11EmbedWindowId,
            Platform::MacOs => WindowType::NsView,
            Platform::Windows => WindowType::Hwnd,
        }
    }

    /// Computes [`Platform::supported_window_type`].
    pub fn window_type(self) -> (window_type: WindowType)
        ensures
            window_type == self.supported_window_type(),
    {
        match self {
            Platform::Linux => WindowType::X11EmbedWindowId,
            Platform::OtherUnix => WindowType::X11EmbedWindowId,
            Platform::MacOs => WindowType::NsView,
            Platform::Windows => WindowType::Hwnd,
        }
    }
}

impl WindowType {
    /// The identifier that names this window type in the VST3 API, without its terminating NUL.
    pub open spec fn id(self) -> Seq<u8> {
        match self {
            WindowType::X11EmbedWindowId => "X11EmbedWindowID".spec_bytes(),
            WindowType::NsView => "NSView".spec_bytes(),
            WindowType::Hwnd => "HWND".spec_bytes(),
        }
    }

    /// The handle for a parent window of this type at address `parent`. X11 window IDs are the
    /// low 32 bits of the pointer the host passes.
    pub open spec fn handle(self, parent: usize) -> ParentWindowHandle {
        match self {
            WindowType::X11EmbedWindowId => ParentWindowHandle::X11Window(
                (parent as int % 0x1_0000_0000) as u32,
            ),
            WindowType::NsView => ParentWindowHandle::AppKitNsView(parent),
            WindowType::Hwnd => ParentWindowHandle::Win32Hwnd(parent),
        }
    }

    /// The window type that `type_id` names, if it names one.
    pub open spec fn named(type_id: Seq<u8>) -> Option<WindowType> {
        if type_id == WindowType::X11EmbedWindowId.id() {
            Some(WindowType::X11EmbedWindowId)
        } else if type_id == WindowType::NsView.id() {
            Some(WindowType::NsView)
        } else if type_id == WindowType::Hwnd.id() {
            Some(WindowType::Hwnd)
        } else {
            None
        }
    }

    /// Whether `type_id` is the identifier of this window type.
    pub fn has_id(self, type_id: &[u8]) -> (matches: bool)
        ensures
            matches == (type_id@ == self.id()),
    {
        match self {
            WindowType::X11EmbedWindowId => fid_matches(type_id, "X11EmbedWindowID".as_bytes()),
            WindowType::NsView => fid_matches(type_id, "NSView".as_bytes()),
            WindowType::Hwnd => fid_matches(type_id, "HWND".as_bytes()),
        }
    }

    /// Looks up the window type that `type_id` names.
    pub fn from_id(type_id: &[u8]) -> (window_type: Option<WindowType>)
        ensures
            window_type == WindowType::named(type_id@),
    {
        if WindowType::X11EmbedWindowId.has_id(type_id) {
            Some(WindowType::X11EmbedWindowId)
        } else if WindowType::NsView.has_id(type_id) {
            Some(WindowType::NsView)
        } else if WindowType::Hwnd.has_id(type_id) {
            Some(WindowType::Hwnd)
        } else {
            None
        }
    }

    /// Wraps the parent window at address `parent` in a handle of this type.
    pub fn parent_handle(self, parent: usize) -> (handle: ParentWindowHandle)
        ensures
            handle == self.handle(parent),
            self == WindowType::NsView ==> handle == ParentWindowHandle::AppKitNsView(parent),
            self == WindowType::Hwnd ==> handle == ParentWindowHandle::Win32Hwnd(parent),
            self == WindowType::X11EmbedWindowId ==> (handle matches ParentWindowHandle::X11Window(
                window,
            ) && window as int == parent as int % 0x1_0000_0000),
    {
        match self {
            WindowType::X11EmbedWindowId => {
                let wide: u64 = parent as u64;
                assert(wide as u32 == wide % 0x1_0000_0000) by (bit_vector);
                ParentWindowHandle::X11Window(
                    #[verifier::truncate]
                    (wide as u32),
                )
            },
            WindowType::NsView => ParentWindowHandle::AppKitNsView(parent),
            WindowType::Hwnd => ParentWindowHandle::Win32Hwnd(parent),
        }
    }
}

/// Whether two identifiers hold the same bytes.
pub fn fid_matches(fid: &[u8], expected: &[u8]) -> (matches: bool)
    ensures
        matches == (fid@ == expected@),
{
    if fid.len() != expected.len() {
        return false;
    }
    let mut i: usize = 0;
    while i < fid.len()
        invariant
            fid@.len() == expected@.len(),
            i <= fid@.len(),
            forall|j: int| 0 <= j < i ==> fid@[j] == expected@[j],
        decreases fid@.len() - i,
    {
        if fid[i] != expected[i] {
            return false;
        }
        i += 1;
    }
    assert(fid@ =~= expected@);
    true
}

/// The identifiers of different window types differ, so a name stands for at most one of them
/// and every window type is found again by its own identifier.
pub proof fn lemma_window_type_ids_distinct(a: WindowType, b: WindowType)
    ensures
        a.id() == b.id() ==> a == b,
        WindowType::named(a.id()) == Some(a),
{
    reveal_strlit("X11EmbedWindowID");
    reveal_strlit("NSView");
    reveal_strlit("HWND");
    vstd::utf8::is_ascii_chars_encode_utf8("X11EmbedWindowID"@);
    vstd::utf8::is_ascii_chars_encode_utf8("NSView"@);
    vstd::utf8::is_ascii_chars_encode_utf8("HWND"@);
    assert(WindowType::X11EmbedWindowId.id().len() == 16);
    assert(WindowType::NsView.id().len() == 6);
    assert(WindowType::Hwnd.id().len() == 4);
}

/// The identifiers of the window types, byte by byte.
pub proof fn lemma_window_type_ids()
    ensures
        WindowType::X11EmbedWindowId.id() == seq![
            0x58u8, 0x31, 0x31, 0x45, 0x6D, 0x62, 0x65, 0x64,
            0x57, 0x69, 0x6E, 0x64, 0x6F, 0x77, 0x49, 0x44,
        ],
        WindowType::NsView.id() == seq![0x4Eu8, 0x53, 0x56, 0x69, 0x65, 0x77],
        WindowType::Hwnd.id() == seq![0x48u8, 0x57, 0x4E, 0x44],
{
    reveal_strlit("X11EmbedWindowID");
    reveal_strlit("NSView");
    reveal_strlit("HWND");
    vstd::utf8::is_ascii_chars_encode_utf8("X11EmbedWindowID"@);
    vstd::utf8::is_ascii_chars_encode_utf8("NSView"@);
    vstd::utf8::is_ascii_chars_encode_utf8("HWND"@);
}

/// An identifier names a window type if and only if it is that type's own, byte by byte, and
/// nothing else names any.
pub proof fn lemma_names(type_id: Seq<u8>)
    ensures
        WindowType::named(type_id) == Some(WindowType::X11EmbedWindowId) <==> type_id == seq![
            0x58u8, 0x31, 0x31, 0x45, 0x6D, 0x62, 0x65, 0x64,
            0x57, 0x69, 0x6E, 0x64, 0x6F, 0x77, 0x49, 0x44,
        ],
        WindowType::named(type_id) == Some(WindowType::NsView) <==> type_id == seq![
            0x4Eu8, 0x53, 0x56, 0x69, 0x65, 0x77,
        ],
        WindowType::named(type_id) == Some(WindowType::Hwnd) <==> type_id == seq![
            0x48u8, 0x57, 0x4E, 0x44,
        ],
{
    lemma_window_type_ids();
    assert(WindowType::X11EmbedWindowId.id().len() == 16);
    assert(WindowType::NsView.id().len() == 6);
    assert(WindowType::Hwnd.id().len() == 4);
}

/// The handle of a parent window is of the window's type and carries its address: all of it for
/// an `NSView` and a `HWND`, the low 32 bits for an X11 window.
pub proof fn lemma_handle_carries_address(parent: usize)
    ensures
        WindowType::NsView.handle(parent) == ParentWindowHandle::AppKitNsView(parent),
        WindowType::Hwnd.handle(parent) == ParentWindowHandle::Win32Hwnd(parent),
        WindowType::X11EmbedWindowId.handle(parent) matches ParentWindowHandle::X11Window(window)
            && window as int == parent as int % 0x1_0000_0000,
{
}

/// Windows at different addresses have different handles, except X11 windows whose addresses
/// agree in the low 32 bits.
pub proof fn lemma_handles_are_distinct(window_type: WindowType, a: usize, b: usize)
    requires
        window_type.handle(a) == window_type.handle(b),
    ensures
        window_type != WindowType::X11EmbedWindowId ==> a == b,
        a as int % 0x1_0000_0000 == b as int % 0x1_0000_0000,
{
}

/// Views support X11 windows on Unix, `NSView`s on macOS and `HWND`s on Windows.
pub proof fn lemma_supported_windows(platform: Platform)
    ensures
        platform.supported_window_type() == WindowType::X11EmbedWindowId <==> platform
            == Platform::Linux || platform == Platform::OtherUnix,
        platform.supported_window_type() == WindowType::NsView <==> platform == Platform::MacOs,
        platform.supported_window_type() == WindowType::Hwnd <==> platform == Platform::Windows,
{
}

} // verus!
