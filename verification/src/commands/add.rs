//! Custom elements and platforms (`rnl add`).
use vstd::prelude::*;
use crate::commands::{generated_file, GeneratedFile};
use crate::config::{
    enabled_platform_names, is_standard_linux, is_standard_macos, is_standard_windows, Config,
    standard_linux, standard_macos, standard_windows,
};
use crate::strings::{
    char_is_uppercase, char_lowercase_first, char_uppercase, chars_of, contains_string,
    is_uppercase_char, lowercase_first, lowercase_of_str, push_char, push_chars, str_eq,
    str_to_lowercase, strings_view, uppercase_of,
};

verus! {

// ---------------------------------------------------------------------------
// Case conversion
// ---------------------------------------------------------------------------

/// snake_case of `s`: an uppercase character becomes its lowercase form,
/// preceded by `_` unless it comes first; `-` becomes `_`.
pub open spec fn snake_case_seq(s: Seq<char>) -> Seq<char>
    decreases s.len(),
{
    if s.len() == 0 {
        Seq::<char>::empty()
    } else {
        let prev = snake_case_seq(s.drop_last());
        let c = s.last();
        if is_uppercase_char(c) {
            (if s.len() > 1 {
                prev.push('_')
            } else {
                prev
            }).push(lowercase_first(c))
        } else if c == '-' {
            prev.push('_')
        } else {
            prev.push(c)
        }
    }
}

/// Whether `c` separates the words of a name.
pub open spec fn is_word_separator(c: char) -> bool {
    c == '-' || c == '_'
}

/// PascalCase of `s`: separators are dropped, and the first character of
/// each word (the first character, or one that follows a separator) is
/// replaced by its uppercase form.
pub open spec fn pascal_case_seq(s: Seq<char>) -> Seq<char>
    decreases s.len(),
{
    if s.len() == 0 {
        Seq::<char>::empty()
    } else {
        let prev = pascal_case_seq(s.drop_last());
        let c = s.last();
        if is_word_separator(c) {
            prev
        } else if s.len() == 1 || is_word_separator(s[s.len() - 2]) {
            prev + uppercase_of(c)
        } else {
            prev.push(c)
        }
    }
}

/// Converts a name to snake_case.
pub fn to_snake_case(s: &str) -> (r: String)
    ensures
        r@ == snake_case_seq(s@),
{
    let v = chars_of(s);
    let mut r = String::new();
    let mut i: usize = 0;
    assert(v@.take(0) =~= Seq::<char>::empty());
    while i < v.len()
        invariant
            i <= v@.len(),
            r@ == snake_case_seq(v@.take(i as int)),
        decreases v@.len() - i,
    {
        let c = v[i];
        assert(v@.take(i + 1).drop_last() =~= v@.take(i as int));
        assert(v@.take(i + 1).last() == c);
        if char_is_uppercase(c) {
            if i > 0 {
                push_char(&mut r, '_');
            }
            push_char(&mut r, char_lowercase_first(c));
        } else if c == '-' {
            push_char(&mut r, '_');
        } else {
            push_char(&mut r, c);
        }
        i = i + 1;
    }
    assert(v@.take(i as int) =~= s@);
    r
}

/// Converts a name to PascalCase.
pub fn to_pascal_case(s: &str) -> (r: String)
    ensures
        r@ == pascal_case_seq(s@),
{
    let v = chars_of(s);
    let mut r = String::new();
    let mut i: usize = 0;
    assert(v@.take(0) =~= Seq::<char>::empty());
    while i < v.len()
        invariant
            i <= v@.len(),
            r@ == pascal_case_seq(v@.take(i as int)),
        decreases v@.len() - i,
    {
        let c = v[i];
        let ghost prefix = v@.take(i + 1);
        assert(prefix.drop_last() =~= v@.take(i as int));
        assert(prefix.last() == c);
        if c == '-' || c == '_' {
        } else if i == 0 || v[i - 1] == '-' || v[i - 1] == '_' {
            assert(i > 0 ==> prefix[prefix.len() - 2] == v@[i - 1]);
            let upper = char_uppercase(c);
            push_chars(&mut r, &upper);
        } else {
            assert(prefix[prefix.len() - 2] == v@[i - 1]);
            push_char(&mut r, c);
        }
        i = i + 1;
    }
    assert(v@.take(i as int) =~= s@);
    r
}

// ---------------------------------------------------------------------------
// Element and platform sources
// ---------------------------------------------------------------------------

/// Part of the C++ source of a custom element for Linux/GTK4.
pub const LINUX_ELEMENT_0: &'static str = r#"// "#;

/// Part of the C++ source of a custom element for Linux/GTK4.
pub const LINUX_ELEMENT_1: &'static str = r#".cpp - Custom element implementation for Linux/GTK4
#include <rnl.h>
#include <gtk/gtk.h>
#include <cstring>

static rnl_widget_t "#;

/// Part of the C++ source of a custom element for Linux/GTK4.
pub const LINUX_ELEMENT_2: &'static str = r#"_create() {
    // TODO: Create your GTK widget here
    GtkWidget* widget = gtk_box_new(GTK_ORIENTATION_VERTICAL, 0);
    return widget;
}

static void "#;

/// Part of the C++ source of a custom element for Linux/GTK4.
pub const LINUX_ELEMENT_3: &'static str = r#"_set_attribute(rnl_widget_t widget, const char* name, const char* value) {
    // TODO: Handle attribute updates
    // GtkWidget* w = GTK_WIDGET(widget);
}

static void "#;

/// Part of the C++ source of a custom element for Linux/GTK4.
pub const LINUX_ELEMENT_4: &'static str = r#"_set_callback(rnl_widget_t widget, const char* name, rnl_js_value_t callback) {
    // TODO: Connect signals to JS callbacks
    // if (strcmp(name, "onSomething") == 0) {
    //     g_signal_connect(widget, "signal-name", G_CALLBACK(...), callback);
    // }
}

static void "#;

/// Part of the C++ source of a custom element for Linux/GTK4.
pub const LINUX_ELEMENT_5: &'static str = r#"_append_child(rnl_widget_t parent, rnl_widget_t child) {
    // TODO: Add child widget if this element is a container
}

static void "#;

/// Part of the C++ source of a custom element for Linux/GTK4.
pub const LINUX_ELEMENT_6: &'static str = r#"_remove_child(rnl_widget_t parent, rnl_widget_t child) {
    // TODO: Remove child widget if this element is a container
}

static void "#;

/// Part of the C++ source of a custom element for Linux/GTK4.
pub const LINUX_ELEMENT_7: &'static str = r#"_destroy(rnl_widget_t widget) {
    // GTK handles ref counting, but clean up any custom data here
}

const rnl_element_factory_t "#;

/// Part of the C++ source of a custom element for Linux/GTK4.
pub const LINUX_ELEMENT_8: &'static str = r#"_factory = {
    .name = ""#;

/// Part of the C++ source of a custom element for Linux/GTK4.
pub const LINUX_ELEMENT_9: &'static str = r#"",
    .create = "#;

/// Part of the C++ source of a custom element for Linux/GTK4.
pub const LINUX_ELEMENT_10: &'static str = r#"_create,
    .set_attribute = "#;

/// Part of the C++ source of a custom element for Linux/GTK4.
pub const LINUX_ELEMENT_11: &'static str = r#"_set_attribute,
    .set_callback = "#;

/// Part of the C++ source of a custom element for Linux/GTK4.
pub const LINUX_ELEMENT_12: &'static str = r#"_set_callback,
    .append_child = "#;

/// Part of the C++ source of a custom element for Linux/GTK4.
pub const LINUX_ELEMENT_13: &'static str = r#"_append_child,
    .insert_before = nullptr,
    .remove_child = "#;

/// Part of the C++ source of a custom element for Linux/GTK4.
pub const LINUX_ELEMENT_14: &'static str = r#"_remove_child,
    .destroy = "#;

/// Part of the C++ source of a custom element for Linux/GTK4.
pub const LINUX_ELEMENT_15: &'static str = r#"_destroy,
};

void register_"#;

/// Part of the C++ source of a custom element for Linux/GTK4.
pub const LINUX_ELEMENT_16: &'static str = r#"() {
    rnl_register_element(&"#;

/// Part of the C++ source of a custom element for Linux/GTK4.
pub const LINUX_ELEMENT_17: &'static str = r#"_factory);
}
"#;

/// Part of the Swift source of a custom element for macOS.
pub const MACOS_ELEMENT_0: &'static str = r#"// "#;

/// Part of the Swift source of a custom element for macOS.
pub const MACOS_ELEMENT_1: &'static str = r#".swift - Custom element implementation for macOS
import AppKit

var "#;

/// Part of the Swift source of a custom element for macOS.
pub const MACOS_ELEMENT_2: &'static str = r#"Factory = rnl_element_factory_t(
    name: strdup(""#;

/// Part of the Swift source of a custom element for macOS.
pub const MACOS_ELEMENT_3: &'static str = r#""),
    
    create: {
        // TODO: Create your AppKit view here
        let view = NSView()
        return Unmanaged.passRetained(view).toOpaque()
    },
    
    set_attribute: { widget, name, value in
        guard let view = Unmanaged<NSView>.fromOpaque(widget!).takeUnretainedValue() as NSView?,
              let nameStr = name.map({ String(cString: $0) }),
              let valueStr = value.map({ String(cString: $0) }) else { return }
        
        // TODO: Handle attribute updates
        switch nameStr {
        default:
            break
        }
    },
    
    set_callback: { widget, name, callback in
        // TODO: Connect actions to JS callbacks
    },
    
    append_child: { parent, child in
        // TODO: Add subview if this element is a container
    },
    
    insert_before: nil,
    
    remove_child: { parent, child in
        // TODO: Remove subview if this element is a container
    },
    
    destroy: { widget in
        Unmanaged<NSView>.fromOpaque(widget!).release()
    }
)

func register"#;

/// Part of the Swift source of a custom element for macOS.
pub const MACOS_ELEMENT_4: &'static str = r#"() {
    withUnsafePointer(to: &"#;

/// Part of the Swift source of a custom element for macOS.
pub const MACOS_ELEMENT_5: &'static str = r#"Factory) { ptr in
        rnl_register_element(ptr)
    }
}
"#;

/// Part of the C# source of a custom element for Windows/WinUI3.
pub const WINDOWS_ELEMENT_0: &'static str = r#"// "#;

/// Part of the C# source of a custom element for Windows/WinUI3.
pub const WINDOWS_ELEMENT_1: &'static str = r#".cs - Custom element implementation for Windows/WinUI3
using System;
using System.Runtime.InteropServices;
using Microsoft.UI.Xaml;
using Microsoft.UI.Xaml.Controls;

public static class "#;

/// Part of the C# source of a custom element for Windows/WinUI3.
pub const WINDOWS_ELEMENT_2: &'static str = r#"Element
{
    private static readonly rnl_element_factory_t Factory = new()
    {
        name = Marshal.StringToHGlobalAnsi(""#;

/// Part of the C# source of a custom element for Windows/WinUI3.
pub const WINDOWS_ELEMENT_3: &'static str = r#""),
        create = Create,
        set_attribute = SetAttribute,
        set_callback = SetCallback,
        append_child = AppendChild,
        insert_before = IntPtr.Zero,
        remove_child = RemoveChild,
        destroy = Destroy,
    };

    [UnmanagedCallersOnly]
    private static IntPtr Create()
    {
        // TODO: Create your WinUI control here
        var panel = new StackPanel();
        return GCHandle.ToIntPtr(GCHandle.Alloc(panel));
    }

    [UnmanagedCallersOnly]
    private static void SetAttribute(IntPtr widget, IntPtr name, IntPtr value)
    {
        var panel = (StackPanel)GCHandle.FromIntPtr(widget).Target!;
        var nameStr = Marshal.PtrToStringUTF8(name);
        var valueStr = Marshal.PtrToStringUTF8(value);

        // TODO: Handle attribute updates
        switch (nameStr)
        {
            default:
                break;
        }
    }

    [UnmanagedCallersOnly]
    private static void SetCallback(IntPtr widget, IntPtr name, IntPtr callback)
    {
        // TODO: Connect events to JS callbacks
    }

    [UnmanagedCallersOnly]
    private static void AppendChild(IntPtr parent, IntPtr child)
    {
        // TODO: Add child if this element is a container
    }

    [UnmanagedCallersOnly]
    private static void RemoveChild(IntPtr parent, IntPtr child)
    {
        // TODO: Remove child if this element is a container
    }

    [UnmanagedCallersOnly]
    private static void Destroy(IntPtr widget)
    {
        GCHandle.FromIntPtr(widget).Free();
    }

    public static void Register()
    {
        unsafe
        {
            fixed (rnl_element_factory_t* ptr = &Factory)
            {
                NativeMethods.rnl_register_element((IntPtr)ptr);
            }
        }
    }
}
"#;

/// `platforms/linux/src/platform.cpp`: Linux platform initialization.
pub const LINUX_PLATFORM_CPP: &'static str = r#"// platform.cpp - Linux platform initialization
#include <rnl.h>
#include <adwaita.h>
#include <gtk/gtk.h>

static AdwApplication* app = nullptr;
static GtkWidget* main_window = nullptr;
static GtkWidget* root_container = nullptr;

// Forward declarations for element registration
extern void register_box();
extern void register_button();
extern void register_text();

extern "C" void rnl_platform_init() {
    // Register built-in elements
    register_box();
    register_button();
    register_text();
}

static void on_activate(GtkApplication* application, gpointer user_data) {
    main_window = adw_application_window_new(application);
    gtk_window_set_title(GTK_WINDOW(main_window), "RNL App");
    gtk_window_set_default_size(GTK_WINDOW(main_window), 800, 600);
    
    root_container = gtk_box_new(GTK_ORIENTATION_VERTICAL, 0);
    adw_application_window_set_content(ADW_APPLICATION_WINDOW(main_window), root_container);
    
    gtk_window_present(GTK_WINDOW(main_window));
}

extern "C" rnl_widget_t rnl_platform_create_window(
    const char* title,
    int32_t width,
    int32_t height
) {
    app = adw_application_new("com.rnl.app", G_APPLICATION_DEFAULT_FLAGS);
    g_signal_connect(app, "activate", G_CALLBACK(on_activate), nullptr);
    return main_window;
}

extern "C" rnl_widget_t rnl_platform_get_root_container(rnl_widget_t window) {
    return root_container;
}

extern "C" int32_t rnl_platform_run() {
    return g_application_run(G_APPLICATION(app), 0, nullptr);
}

extern "C" void rnl_platform_quit() {
    g_application_quit(G_APPLICATION(app));
}

extern "C" void rnl_platform_schedule_main(void (*callback)(void*), void* data) {
    g_idle_add_once((GSourceOnceFunc)callback, data);
}
"#;

/// `platforms/linux/src/main.cpp`: Linux entry point.
pub const LINUX_MAIN_CPP: &'static str = r#"// main.cpp - Linux entry point
#include <rnl.h>

int main(int argc, char** argv) {
    return rnl_main(nullptr, argc, argv);
}
"#;

/// `platforms/macos/Sources/Platform.swift`: macOS platform initialization.
pub const MACOS_PLATFORM_SWIFT: &'static str = r#"// Platform.swift - macOS platform initialization
import AppKit

var mainWindow: NSWindow?
var rootView: NSStackView?

@_cdecl("rnl_platform_init")
func platformInit() {
    NSApplication.shared.setActivationPolicy(.regular)
    // Register built-in elements
    registerBox()
    registerButton()
    registerText()
}

@_cdecl("rnl_platform_create_window")
func createWindow(title: UnsafePointer<CChar>, width: Int32, height: Int32) -> UnsafeMutableRawPointer? {
    let window = NSWindow(
        contentRect: NSRect(x: 0, y: 0, width: CGFloat(width), height: CGFloat(height)),
        styleMask: [.titled, .closable, .resizable, .miniaturizable],
        backing: .buffered,
        defer: false
    )
    window.title = String(cString: title)
    window.center()
    
    let stack = NSStackView()
    stack.orientation = .vertical
    stack.alignment = .leading
    stack.translatesAutoresizingMaskIntoConstraints = false
    window.contentView = stack
    
    rootView = stack
    mainWindow = window
    
    return Unmanaged.passRetained(window).toOpaque()
}

@_cdecl("rnl_platform_get_root_container")
func getRootContainer(window: UnsafeMutableRawPointer) -> UnsafeMutableRawPointer? {
    guard let root = rootView else { return nil }
    return Unmanaged.passUnretained(root).toOpaque()
}

@_cdecl("rnl_platform_run")
func platformRun() -> Int32 {
    mainWindow?.makeKeyAndOrderFront(nil)
    NSApplication.shared.activate(ignoringOtherApps: true)
    NSApplication.shared.run()
    return 0
}

@_cdecl("rnl_platform_quit")
func platformQuit() {
    NSApplication.shared.terminate(nil)
}

@_cdecl("rnl_platform_schedule_main")
func scheduleMain(callback: @escaping @convention(c) (UnsafeMutableRawPointer?) -> Void, data: UnsafeMutableRawPointer?) {
    DispatchQueue.main.async {
        callback(data)
    }
}
"#;

/// `platforms/windows/src/Platform.cs`: Windows platform initialization.
pub const WINDOWS_PLATFORM_CS: &'static str = r#"// Platform.cs - Windows platform initialization
using System;
using System.Runtime.InteropServices;
using Microsoft.UI.Xaml;
using Microsoft.UI.Xaml.Controls;

public static class Platform
{
    private static Application? app;
    private static Window? mainWindow;
    private static StackPanel? rootPanel;

    [UnmanagedCallersOnly(EntryPoint = "rnl_platform_init")]
    public static void Init()
    {
        WinRT.ComWrappersSupport.InitializeComWrappers();
        // Register built-in elements
        BoxElement.Register();
        ButtonElement.Register();
        TextElement.Register();
    }

    [UnmanagedCallersOnly(EntryPoint = "rnl_platform_create_window")]
    public static IntPtr CreateWindow(IntPtr title, int width, int height)
    {
        var titleStr = Marshal.PtrToStringUTF8(title) ?? "RNL App";
        
        mainWindow = new Window
        {
            Title = titleStr,
        };
        
        rootPanel = new StackPanel
        {
            Orientation = Orientation.Vertical,
        };
        mainWindow.Content = rootPanel;
        
        return GCHandle.ToIntPtr(GCHandle.Alloc(mainWindow));
    }

    [UnmanagedCallersOnly(EntryPoint = "rnl_platform_get_root_container")]
    public static IntPtr GetRootContainer(IntPtr window)
    {
        return GCHandle.ToIntPtr(GCHandle.Alloc(rootPanel));
    }

    [UnmanagedCallersOnly(EntryPoint = "rnl_platform_run")]
    public static int Run()
    {
        mainWindow?.Activate();
        return 0;
    }

    [UnmanagedCallersOnly(EntryPoint = "rnl_platform_quit")]
    public static void Quit()
    {
        mainWindow?.Close();
    }

    [UnmanagedCallersOnly(EntryPoint = "rnl_platform_schedule_main")]
    public static void ScheduleMain(IntPtr callback, IntPtr data)
    {
        mainWindow?.DispatcherQueue.TryEnqueue(() =>
        {
            var fn = Marshal.GetDelegateForFunctionPointer<Action<IntPtr>>(callback);
            fn(data);
        });
    }
}
"#;

/// The C++ source of a custom Linux/GTK4 element called `name` (`snake` is its snake_case form).
pub open spec fn linux_element_text(name: Seq<char>, snake: Seq<char>) -> Seq<char> {
    LINUX_ELEMENT_0@
        + name
        + LINUX_ELEMENT_1@
        + snake
        + LINUX_ELEMENT_2@
        + snake
        + LINUX_ELEMENT_3@
        + snake
        + LINUX_ELEMENT_4@
        + snake
        + LINUX_ELEMENT_5@
        + snake
        + LINUX_ELEMENT_6@
        + snake
        + LINUX_ELEMENT_7@
        + snake
        + LINUX_ELEMENT_8@
        + name
        + LINUX_ELEMENT_9@
        + snake
        + LINUX_ELEMENT_10@
        + snake
        + LINUX_ELEMENT_11@
        + snake
        + LINUX_ELEMENT_12@
        + snake
        + LINUX_ELEMENT_13@
        + snake
        + LINUX_ELEMENT_14@
        + snake
        + LINUX_ELEMENT_15@
        + snake
        + LINUX_ELEMENT_16@
        + snake
        + LINUX_ELEMENT_17@
}

/// The Swift source of a custom macOS element called `name` (`pascal` is its PascalCase form, `lower` its lowercase form).
pub open spec fn macos_element_text(name: Seq<char>, pascal: Seq<char>, lower: Seq<char>) -> Seq<char> {
    MACOS_ELEMENT_0@
        + pascal
        + MACOS_ELEMENT_1@
        + lower
        + MACOS_ELEMENT_2@
        + name
        + MACOS_ELEMENT_3@
        + pascal
        + MACOS_ELEMENT_4@
        + lower
        + MACOS_ELEMENT_5@
}

/// The C# source of a custom Windows/WinUI3 element called `name` (`pascal` is its PascalCase form).
pub open spec fn windows_element_text(name: Seq<char>, pascal: Seq<char>) -> Seq<char> {
    WINDOWS_ELEMENT_0@
        + pascal
        + WINDOWS_ELEMENT_1@
        + pascal
        + WINDOWS_ELEMENT_2@
        + name
        + WINDOWS_ELEMENT_3@
}

/// The C++ source of a custom Linux element called `name`.
pub fn linux_element_source(name: &str) -> (s: String)
    ensures
        s@ == linux_element_text(name@, snake_case_seq(name@)),
{
    let snake_name = to_snake_case(name);
    let snake = snake_name.as_str();
    let mut s = String::from_str(LINUX_ELEMENT_0);
    s.append(name);
    s.append(LINUX_ELEMENT_1);
    s.append(snake);
    s.append(LINUX_ELEMENT_2);
    s.append(snake);
    s.append(LINUX_ELEMENT_3);
    s.append(snake);
    s.append(LINUX_ELEMENT_4);
    s.append(snake);
    s.append(LINUX_ELEMENT_5);
    s.append(snake);
    s.append(LINUX_ELEMENT_6);
    s.append(snake);
    s.append(LINUX_ELEMENT_7);
    s.append(snake);
    s.append(LINUX_ELEMENT_8);
    s.append(name);
    s.append(LINUX_ELEMENT_9);
    s.append(snake);
    s.append(LINUX_ELEMENT_10);
    s.append(snake);
    s.append(LINUX_ELEMENT_11);
    s.append(snake);
    s.append(LINUX_ELEMENT_12);
    s.append(snake);
    s.append(LINUX_ELEMENT_13);
    s.append(snake);
    s.append(LINUX_ELEMENT_14);
    s.append(snake);
    s.append(LINUX_ELEMENT_15);
    s.append(snake);
    s.append(LINUX_ELEMENT_16);
    s.append(snake);
    s.append(LINUX_ELEMENT_17);
    s
}

/// The Swift source of a custom macOS element called `name`.
pub fn macos_element_source(name: &str) -> (s: String)
    ensures
        s@ == macos_element_text(name@, pascal_case_seq(name@), lowercase_of_str(name@)),
{
    let pascal_name = to_pascal_case(name);
    let lower_name = str_to_lowercase(name);
    let pascal = pascal_name.as_str();
    let lower = lower_name.as_str();
    let mut s = String::from_str(MACOS_ELEMENT_0);
    s.append(pascal);
    s.append(MACOS_ELEMENT_1);
    s.append(lower);
    s.append(MACOS_ELEMENT_2);
    s.append(name);
    s.append(MACOS_ELEMENT_3);
    s.append(pascal);
    s.append(MACOS_ELEMENT_4);
    s.append(lower);
    s.append(MACOS_ELEMENT_5);
    s
}

/// The C# source of a custom Windows element called `name`.
pub fn windows_element_source(name: &str) -> (s: String)
    ensures
        s@ == windows_element_text(name@, pascal_case_seq(name@)),
{
    let pascal_name = to_pascal_case(name);
    let pascal = pascal_name.as_str();
    let mut s = String::from_str(WINDOWS_ELEMENT_0);
    s.append(pascal);
    s.append(WINDOWS_ELEMENT_1);
    s.append(pascal);
    s.append(WINDOWS_ELEMENT_2);
    s.append(name);
    s.append(WINDOWS_ELEMENT_3);
    s
}

// ---------------------------------------------------------------------------
// Adding an element
// ---------------------------------------------------------------------------

/// A platform that RNL supports.
#[derive(PartialEq, Eq, Structural, Clone, Copy)]
pub enum PlatformKind {
    Linux,
    MacOS,
    Windows,
}

/// Why `rnl add` refused.
pub enum AddError {
    /// The project has a custom element of that name already.
    ElementExists(String),
    /// The platform's section is present in the configuration already.
    PlatformEnabled(PlatformKind),
    /// The platform is not one of linux, macos, windows.
    UnknownPlatform(String),
}

impl AddError {
    pub open spec fn message_spec(&self) -> Seq<char> {
        match self {
            AddError::ElementExists(n) => "Element '"@ + n@ + "' already exists in project"@,
            AddError::PlatformEnabled(PlatformKind::Linux) => "Linux platform already enabled"@,
            AddError::PlatformEnabled(PlatformKind::MacOS) => "macOS platform already enabled"@,
            AddError::PlatformEnabled(PlatformKind::Windows) => "Windows platform already enabled"@,
            AddError::UnknownPlatform(n) => "Unknown platform: "@ + n@
                + ". Valid options: linux, macos, windows"@,
        }
    }

    /// The error message.
    pub fn message(&self) -> (m: String)
        ensures
            m@ == self.message_spec(),
    {
        match self {
            AddError::ElementExists(n) => {
                let mut m = String::from_str("Element '");
                m.append(n.as_str());
                m.append("' already exists in project");
                m
            },
            AddError::PlatformEnabled(PlatformKind::Linux) => String::from_str(
                "Linux platform already enabled",
            ),
            AddError::PlatformEnabled(PlatformKind::MacOS) => String::from_str(
                "macOS platform already enabled",
            ),
            AddError::PlatformEnabled(PlatformKind::Windows) => String::from_str(
                "Windows platform already enabled",
            ),
            AddError::UnknownPlatform(n) => {
                let mut m = String::from_str("Unknown platform: ");
                m.append(n.as_str());
                m.append(". Valid options: linux, macos, windows");
                m
            },
        }
    }
}

/// The source file of custom element `name` on `platform` (a path relative
/// to the project directory, and its contents); none for other platforms.
pub open spec fn element_file_spec(platform: Seq<char>, name: Seq<char>) -> Option<
    (Seq<char>, Seq<char>),
> {
    if platform == "linux"@ {
        Some(
            (
                "platforms/linux/src/elements/"@ + name + ".cpp"@,
                linux_element_text(name, snake_case_seq(name)),
            ),
        )
    } else if platform == "macos"@ {
        Some(
            (
                "platforms/macos/Sources/Elements/"@ + pascal_case_seq(name) + ".swift"@,
                macos_element_text(name, pascal_case_seq(name), lowercase_of_str(name)),
            ),
        )
    } else if platform == "windows"@ {
        Some(
            (
                "platforms/windows/src/"@ + pascal_case_seq(name) + ".cs"@,
                windows_element_text(name, pascal_case_seq(name)),
            ),
        )
    } else {
        None
    }
}

/// `a + b + c` as a string.
fn concat3(a: &str, b: &str, c: &str) -> (s: String)
    ensures
        s@ == a@ + b@ + c@,
{
    let mut s = String::from_str(a);
    s.append(b);
    s.append(c);
    s
}

/// The source file of custom element `name` on `platform`.
pub fn element_file(platform: &str, name: &str) -> (f: Option<GeneratedFile>)
    ensures
        match f {
            Some(f) => element_file_spec(platform@, name@) == Some((f.path@, f.content@)),
            None => element_file_spec(platform@, name@) is None,
        },
{
    if str_eq(platform, "linux") {
        let path = concat3("platforms/linux/src/elements/", name, ".cpp");
        Some(GeneratedFile { path, content: linux_element_source(name) })
    } else if str_eq(platform, "macos") {
        let pascal = to_pascal_case(name);
        let path = concat3("platforms/macos/Sources/Elements/", pascal.as_str(), ".swift");
        Some(GeneratedFile { path, content: macos_element_source(name) })
    } else if str_eq(platform, "windows") {
        let pascal = to_pascal_case(name);
        let path = concat3("platforms/windows/src/", pascal.as_str(), ".cs");
        Some(GeneratedFile { path, content: windows_element_source(name) })
    } else {
        None
    }
}

/// The source files of custom element `name`, one per enabled platform in
/// the order of `enabled_platform_names`.
pub open spec fn element_files_spec(platforms: Seq<Seq<char>>, name: Seq<char>) -> Seq<
    (Seq<char>, Seq<char>),
>
    decreases platforms.len(),
{
    if platforms.len() == 0 {
        Seq::empty()
    } else {
        let prev = element_files_spec(platforms.drop_last(), name);
        match element_file_spec(platforms.last(), name) {
            Some(f) => prev.push(f),
            None => prev,
        }
    }
}

/// The files that `rnl add element name` writes, or why it refuses: a
/// custom element of that name exists already.
pub fn plan_add_element(config: &Config, name: &str) -> (r: Result<Vec<GeneratedFile>, AddError>)
    ensures
        match r {
            Ok(files) => !strings_view(config.elements.custom@).contains(name@) && files@.map_values(
                |f: GeneratedFile| (f.path@, f.content@),
            ) == element_files_spec(enabled_platform_names(config.platforms), name@),
            Err(AddError::ElementExists(n)) => strings_view(config.elements.custom@).contains(
                name@,
            ) && n@ == name@,
            Err(_) => false,
        },
{
    if contains_string(&config.elements.custom, name) {
        return Err(AddError::ElementExists(String::from_str(name)));
    }
    let platforms = config.enabled_platforms();
    let ghost names = enabled_platform_names(config.platforms);
    let mut files: Vec<GeneratedFile> = Vec::new();
    let mut i: usize = 0;
    while i < platforms.len()
        invariant
            i <= platforms@.len(),
            platforms@.map_values(|p: &str| p@) == names,
            files@.map_values(|f: GeneratedFile| (f.path@, f.content@)) == element_files_spec(
                names.take(i as int),
                name@,
            ),
        decreases platforms@.len() - i,
    {
        let ghost prefix = names.take(i + 1);
        assert(prefix.drop_last() =~= names.take(i as int));
        assert(prefix.last() == platforms@[i as int]@);
        let ghost before = files@;
        match element_file(platforms[i], name) {
            Some(f) => {
                files.push(f);
                assert(files@.map_values(|f: GeneratedFile| (f.path@, f.content@)) =~= before.map_values(
                    |f: GeneratedFile| (f.path@, f.content@),
                ).push((f.path@, f.content@)));
            },
            None => {},
        }
        i = i + 1;
    }
    assert(names.take(i as int) =~= names);
    Ok(files)
}

/// Records custom element `name` in the configuration.
pub fn record_element(config: &mut Config, name: &str)
    ensures
        final(config).elements.custom@.len() == old(config).elements.custom@.len() + 1,
        strings_view(final(config).elements.custom@) == strings_view(
            old(config).elements.custom@,
        ).push(name@),
        final(config).project == old(config).project,
        final(config).window == old(config).window,
        final(config).platforms == old(config).platforms,
        final(config).build == old(config).build,
{
    let ghost before = config.elements.custom@;
    config.elements.custom.push(String::from_str(name));
    assert(strings_view(config.elements.custom@) =~= strings_view(before).push(name@));
}

/// The paths that `rnl add element name` lists as created, one per enabled
/// platform: `platforms/<platform dir>/<name>.<ext>`.
pub open spec fn element_summary_path(platform: Seq<char>, name: Seq<char>) -> Option<Seq<char>> {
    if platform == "linux"@ {
        Some("platforms/linux/src/elements/"@ + name + ".cpp"@)
    } else if platform == "macos"@ {
        Some("platforms/macos/Sources/Elements/"@ + name + ".swift"@)
    } else if platform == "windows"@ {
        Some("platforms/windows/src/"@ + name + ".cs"@)
    } else {
        None
    }
}

/// The path listed for element `name` on `platform`.
pub fn element_summary(platform: &str, name: &str) -> (r: Option<String>)
    ensures
        match r {
            Some(p) => element_summary_path(platform@, name@) == Some(p@),
            None => element_summary_path(platform@, name@) is None,
        },
{
    if str_eq(platform, "linux") {
        Some(concat3("platforms/linux/src/elements/", name, ".cpp"))
    } else if str_eq(platform, "macos") {
        Some(concat3("platforms/macos/Sources/Elements/", name, ".swift"))
    } else if str_eq(platform, "windows") {
        Some(concat3("platforms/windows/src/", name, ".cs"))
    } else {
        None
    }
}

// ---------------------------------------------------------------------------
// Adding a platform
// ---------------------------------------------------------------------------

/// The platform named `name`, if RNL supports it.
pub open spec fn platform_kind_spec(name: Seq<char>) -> Option<PlatformKind> {
    if name == "linux"@ {
        Some(PlatformKind::Linux)
    } else if name == "macos"@ {
        Some(PlatformKind::MacOS)
    } else if name == "windows"@ {
        Some(PlatformKind::Windows)
    } else {
        None
    }
}

/// The platform named `name`, if RNL supports it.
pub fn platform_kind(name: &str) -> (r: Option<PlatformKind>)
    ensures
        r == platform_kind_spec(name@),
{
    if str_eq(name, "linux") {
        Some(PlatformKind::Linux)
    } else if str_eq(name, "macos") {
        Some(PlatformKind::MacOS)
    } else if str_eq(name, "windows") {
        Some(PlatformKind::Windows)
    } else {
        None
    }
}

/// Whether the configuration has a section for `kind`.
pub open spec fn has_platform_section(config: Config, kind: PlatformKind) -> bool {
    match kind {
        PlatformKind::Linux => config.platforms.linux is Some,
        PlatformKind::MacOS => config.platforms.macos is Some,
        PlatformKind::Windows => config.platforms.windows is Some,
    }
}

/// Which platform `rnl add platform name` adds, or why it refuses: the name
/// is unknown, or the configuration has that platform's section already.
pub fn plan_add_platform(config: &Config, name: &str) -> (r: Result<PlatformKind, AddError>)
    ensures
        match r {
            Ok(k) => platform_kind_spec(name@) == Some(k) && !has_platform_section(*config, k),
            Err(AddError::PlatformEnabled(k)) => platform_kind_spec(name@) == Some(k)
                && has_platform_section(*config, k),
            Err(AddError::UnknownPlatform(n)) => platform_kind_spec(name@) is None && n@ == name@,
            Err(AddError::ElementExists(_)) => false,
        },
{
    let kind = match platform_kind(name) {
        Some(k) => k,
        None => {
            return Err(AddError::UnknownPlatform(String::from_str(name)));
        },
    };
    let present = match kind {
        PlatformKind::Linux => config.platforms.linux.is_some(),
        PlatformKind::MacOS => config.platforms.macos.is_some(),
        PlatformKind::Windows => config.platforms.windows.is_some(),
    };
    if present {
        Err(AddError::PlatformEnabled(kind))
    } else {
        Ok(kind)
    }
}

/// The files that adding platform `kind` writes.
pub open spec fn platform_files_spec(kind: PlatformKind) -> Seq<(Seq<char>, Seq<char>)> {
    match kind {
        PlatformKind::Linux => seq![
            ("platforms/linux/src/platform.cpp"@, LINUX_PLATFORM_CPP@),
            ("platforms/linux/src/main.cpp"@, LINUX_MAIN_CPP@),
        ],
        PlatformKind::MacOS => seq![
            ("platforms/macos/Sources/Platform.swift"@, MACOS_PLATFORM_SWIFT@),
        ],
        PlatformKind::Windows => seq![("platforms/windows/src/Platform.cs"@, WINDOWS_PLATFORM_CS@)],
    }
}

/// The directory that adding platform `kind` creates first.
pub open spec fn platform_dir_for(kind: PlatformKind) -> Seq<char> {
    match kind {
        PlatformKind::Linux => "platforms/linux/src/elements"@,
        PlatformKind::MacOS => "platforms/macos/Sources/Elements"@,
        PlatformKind::Windows => "platforms/windows/src"@,
    }
}

/// The directory that adding platform `kind` creates first.
pub fn platform_directory(kind: PlatformKind) -> (d: &'static str)
    ensures
        d@ == platform_dir_for(kind),
{
    match kind {
        PlatformKind::Linux => "platforms/linux/src/elements",
        PlatformKind::MacOS => "platforms/macos/Sources/Elements",
        PlatformKind::Windows => "platforms/windows/src",
    }
}

/// The files that adding platform `kind` writes, in order.
pub fn platform_files(kind: PlatformKind) -> (files: Vec<GeneratedFile>)
    ensures
        files@.map_values(|f: GeneratedFile| (f.path@, f.content@)) == platform_files_spec(kind),
{
    let mut files: Vec<GeneratedFile> = Vec::new();
    match kind {
        PlatformKind::Linux => {
            files.push(
                generated_file(
                    "platforms/linux/src/platform.cpp",
                    String::from_str(LINUX_PLATFORM_CPP),
                ),
            );
            files.push(
                generated_file("platforms/linux/src/main.cpp", String::from_str(LINUX_MAIN_CPP)),
            );
        },
        PlatformKind::MacOS => {
            files.push(
                generated_file(
                    "platforms/macos/Sources/Platform.swift",
                    String::from_str(MACOS_PLATFORM_SWIFT),
                ),
            );
        },
        PlatformKind::Windows => {
            files.push(
                generated_file(
                    "platforms/windows/src/Platform.cs",
                    String::from_str(WINDOWS_PLATFORM_CS),
                ),
            );
        },
    }
    assert(files@.map_values(|f: GeneratedFile| (f.path@, f.content@)) =~= platform_files_spec(
        kind,
    ));
    files
}

/// The name of platform `kind`.
pub open spec fn platform_name(kind: PlatformKind) -> Seq<char> {
    match kind {
        PlatformKind::Linux => "linux"@,
        PlatformKind::MacOS => "macos"@,
        PlatformKind::Windows => "windows"@,
    }
}

/// `after` is `before` with the standard section of platform `kind`.
pub open spec fn with_platform_enabled(before: Config, after: Config, kind: PlatformKind) -> bool {
    &&& after.project == before.project
    &&& after.window == before.window
    &&& after.build == before.build
    &&& after.elements == before.elements
    &&& match kind {
        PlatformKind::Linux => after.platforms.linux matches Some(l) && is_standard_linux(l)
            && after.platforms.macos == before.platforms.macos && after.platforms.windows
            == before.platforms.windows,
        PlatformKind::MacOS => after.platforms.macos matches Some(m) && is_standard_macos(m)
            && after.platforms.linux == before.platforms.linux && after.platforms.windows
            == before.platforms.windows,
        PlatformKind::Windows => after.platforms.windows matches Some(w) && is_standard_windows(w)
            && after.platforms.linux == before.platforms.linux && after.platforms.macos
            == before.platforms.macos,
    }
}

/// Gives the configuration the standard section of platform `kind`.
pub fn enable_platform(config: &mut Config, kind: PlatformKind)
    ensures
        with_platform_enabled(*old(config), *final(config), kind),
{
    match kind {
        PlatformKind::Linux => {
            config.platforms.linux = Some(standard_linux());
        },
        PlatformKind::MacOS => {
            config.platforms.macos = Some(standard_macos());
        },
        PlatformKind::Windows => {
            config.platforms.windows = Some(standard_windows());
        },
    }
}

} // verus!
