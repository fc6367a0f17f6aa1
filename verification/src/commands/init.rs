//! Project scaffolding (`rnl init`).
use vstd::prelude::*;
use crate::commands::{generated_file, GeneratedFile};
use crate::strings::{split, split_seq, str_eq, strings_view, trim, trim_seq};
use crate::templates::ProjectData;
use crate::cli::InitOpts;

verus! {

/// The `tsconfig.json` of a new project.
pub const TSCONFIG: &'static str = r#"{
  "compilerOptions": {
    "target": "ES2020",
    "module": "ESNext",
    "moduleResolution": "bundler",
    "jsx": "react-jsx",
    "jsxImportSource": "rnl",
    "strict": true,
    "esModuleInterop": true,
    "skipLibCheck": true,
    "forceConsistentCasingInFileNames": true,
    "resolveJsonModule": true,
    "declaration": true,
    "declarationMap": true,
    "sourceMap": true,
    "outDir": "./dist",
    "rootDir": "./src",
    "baseUrl": ".",
    "paths": {
      "rnl": ["./node_modules/rnl"]
    }
  },
  "include": ["src/**/*"],
  "exclude": ["node_modules", "target", "dist"]
}
"#;

/// The `src/index.tsx` entry point of a new project.
pub const INDEX_TSX: &'static str = r#"import { render } from 'rnl';
import { App } from './App';

render(<App />);
"#;

/// The `.gitignore` of a new project.
pub const GITIGNORE: &'static str = r#"# Build artifacts
/target
/dist
/node_modules

# IDE
.idea/
.vscode/
*.swp
*.swo

# OS
.DS_Store
Thumbs.db

# Debug
*.log
"#;

/// The `package.json` of the `rnl` runtime shim package.
pub const RNL_PACKAGE_JSON: &'static str = r#"{
  "name": "rnl",
  "version": "0.1.0",
  "main": "index.js",
  "types": "index.d.ts"
}
"#;

/// The `rnl` runtime shim (`node_modules/rnl/index.js`): hooks, JSX runtime and renderer over `RNLNativeModule`.
pub const RNL_SHIM: &'static str = r#"// RNL Runtime Shim
// This bridges React to native RNL components via RNLNativeModule

// Lazy accessor - RNLNativeModule must be accessed dynamically because
// the bundle may be loaded before the native module is injected into globalThis
function getRNL() {
    return globalThis.RNLNativeModule || {};
}

// ============ Hooks Implementation ============

// Global render context
let currentComponentId = 0;
let hookIndex = 0;
const componentStates = new Map(); // componentId -> { hooks: [], element: vdom }

// Root render state for re-rendering
let rootComponent = null;
let rootElement = null;
let rootHandle = null;
let isRendering = false;
let pendingRerender = false;

function getComponentState(componentId) {
    if (!componentStates.has(componentId)) {
        componentStates.set(componentId, { hooks: [] });
    }
    return componentStates.get(componentId);
}

export function useState(initialValue) {
    const componentId = currentComponentId;
    const state = getComponentState(componentId);
    const idx = hookIndex++;
    
    if (state.hooks[idx] === undefined) {
        state.hooks[idx] = typeof initialValue === 'function' ? initialValue() : initialValue;
    }
    
    const setState = (newValue) => {
        const current = state.hooks[idx];
        const next = typeof newValue === 'function' ? newValue(current) : newValue;
        
        // Only re-render if value actually changed
        if (next !== current) {
            state.hooks[idx] = next;
            scheduleRerender();
        }
    };
    
    return [state.hooks[idx], setState];
}

function scheduleRerender() {
    if (isRendering) {
        // Already rendering, mark for another pass
        pendingRerender = true;
        return;
    }
    
    // Use setTimeout(0) to batch multiple setState calls
    setTimeout(() => {
        if (rootComponent && rootElement) {
            rerender();
        }
    }, 0);
}

export function useEffect(effect, deps) {
    const state = getComponentState();
    const idx = hookIndex++;
    
    const prevDeps = state.hooks[idx]?.deps;
    const hasChanged = !prevDeps || !deps || deps.some((d, i) => d !== prevDeps[i]);
    
    if (hasChanged) {
        if (state.hooks[idx]?.cleanup) {
            state.hooks[idx].cleanup();
        }
        const cleanup = effect();
        state.hooks[idx] = { deps, cleanup };
    }
}

export function useCallback(callback, deps) {
    const state = getComponentState();
    const idx = hookIndex++;
    
    const prevDeps = state.hooks[idx]?.deps;
    const hasChanged = !prevDeps || !deps || deps.some((d, i) => d !== prevDeps[i]);
    
    if (hasChanged) {
        state.hooks[idx] = { callback, deps };
    }
    
    return state.hooks[idx].callback;
}

export function useMemo(factory, deps) {
    const state = getComponentState();
    const idx = hookIndex++;
    
    const prevDeps = state.hooks[idx]?.deps;
    const hasChanged = !prevDeps || !deps || deps.some((d, i) => d !== prevDeps[i]);
    
    if (hasChanged) {
        state.hooks[idx] = { value: factory(), deps };
    }
    
    return state.hooks[idx].value;
}

export function useRef(initialValue) {
    const state = getComponentState();
    const idx = hookIndex++;
    
    if (state.hooks[idx] === undefined) {
        state.hooks[idx] = { current: initialValue };
    }
    
    return state.hooks[idx];
}

// Simple JSX runtime
// createElement is for React.createElement() style (children as extra args)
export function createElement(type, props, ...children) {
    return { type, props: { ...props, children: children.flat() } };
}

// jsx/jsxs are for react-jsx transform (children already in props)
export function jsx(type, props, key) {
    return { type, props, key };
}

export function jsxs(type, props, key) {
    return { type, props, key };
}

// ============ Render Implementation ============

// Internal render that creates widgets
function renderElement(element) {
    const RNL = getRNL();
    
    if (element === null || element === undefined) return null;
    if (typeof element === 'string' || typeof element === 'number') {
        return RNL.createText?.(String(element));
    }
    
    const { type, props } = element;
    
    // Function component
    if (typeof type === 'function') {
        // Each component instance gets a stable ID based on render order
        const componentId = currentComponentId++;
        const prevHookIndex = hookIndex;
        hookIndex = 0;
        
        const result = type(props);
        
        hookIndex = prevHookIndex;
        
        return renderElement(result);
    }
    
    // Native element
    const handle = RNL.createNode?.(type);
    if (!handle) {
        console.warn('Unknown element type:', type);
        return null;
    }
    
    // Set attributes
    if (props) {
        for (const [key, value] of Object.entries(props)) {
            if (key === 'children') continue;
            if (key.startsWith('on') && typeof value === 'function') {
                RNL.setCallback?.(handle, key, value);
            } else if (key === 'style' && typeof value === 'object') {
                for (const [styleProp, styleVal] of Object.entries(value)) {
                    RNL.setAttribute?.(handle, `style.${styleProp}`, String(styleVal));
                }
            } else {
                RNL.setAttribute?.(handle, key, String(value));
            }
        }
        
        // Render children
        const children = props.children || [];
        for (const child of Array.isArray(children) ? children : [children]) {
            const childHandle = renderElement(child);
            if (childHandle) {
                RNL.appendChild?.(handle, childHandle);
            }
        }
    }
    
    return handle;
}

// Clear all children from a container
function clearContainer(containerHandle) {
    const RNL = getRNL();
    // We need a way to clear children - for now we'll rely on the platform
    // to handle this via a special "clear" call or by tracking children
    RNL.clearChildren?.(containerHandle);
}

// Re-render the root component
function rerender() {
    if (!rootComponent || !rootElement) return;
    
    const RNL = getRNL();
    const root = RNL.getRootHandle?.();
    if (!root) return;
    
    isRendering = true;
    pendingRerender = false;
    
    // Reset component IDs for consistent hook ordering
    currentComponentId = 0;
    
    // Remove old tree
    if (rootHandle) {
        RNL.removeChild?.(root, rootHandle);
    }
    
    // Render new tree
    rootHandle = renderElement(rootElement);
    
    // Append to root
    if (rootHandle) {
        RNL.appendChild?.(root, rootHandle);
    }
    
    isRendering = false;
    
    // Check if another rerender was requested during this render
    if (pendingRerender) {
        scheduleRerender();
    }
}

// Public render function - called once to mount the app
export function render(element, container) {
    const RNL = getRNL();
    
    // Store for re-renders
    rootElement = element;
    
    isRendering = true;
    currentComponentId = 0;
    
    // Initial render
    rootHandle = renderElement(element);
    
    // Append to root container
    if (rootHandle) {
        const root = RNL.getRootHandle?.();
        if (root) {
            RNL.appendChild?.(root, rootHandle);
        }
    }
    
    isRendering = false;
    
    return rootHandle;
}

// Fragment just returns its children
export const Fragment = ({ children }) => children;

export default { useState, useEffect, useCallback, useMemo, useRef, createElement, render, jsx, jsxs, Fragment };
"#;

/// The type definitions of the `rnl` shim (`index.d.ts`).
pub const RNL_TYPES: &'static str = r#"// RNL Type Definitions

import { ReactNode, ReactElement } from 'react';

// Hooks
export function useState<T>(initialValue: T | (() => T)): [T, (value: T | ((prev: T) => T)) => void];
export function useEffect(effect: () => void | (() => void), deps?: any[]): void;
export function useCallback<T extends (...args: any[]) => any>(callback: T, deps: any[]): T;
export function useMemo<T>(factory: () => T, deps: any[]): T;
export function useRef<T>(initialValue: T): { current: T };

// JSX
export function createElement(type: any, props: any, ...children: any[]): any;
export function render(element: ReactElement, container?: any): any;

export const jsx: typeof createElement;
export const jsxs: typeof createElement;
export const Fragment: React.FC<{ children?: ReactNode }>;

// Native element props
interface BoxProps {
    orientation?: 'horizontal' | 'vertical';
    spacing?: number;
    style?: React.CSSProperties;
    children?: ReactNode;
}

interface TextProps {
    style?: React.CSSProperties;
    children?: ReactNode;
}

interface ButtonProps {
    label?: string;
    enabled?: boolean;
    onClick?: () => void;
    style?: React.CSSProperties;
}

interface InputProps {
    value?: string;
    placeholder?: string;
    onChange?: (value: string) => void;
    style?: React.CSSProperties;
}

// Declare JSX intrinsic elements
declare global {
    namespace JSX {
        interface IntrinsicElements {
            box: BoxProps;
            text: TextProps;
            button: ButtonProps;
            input: InputProps;
        }
    }
}

export {};
"#;

/// The JSX runtime entry of the `rnl` shim (`jsx-runtime.js`).
pub const RNL_JSX_RUNTIME: &'static str = r#"// RNL JSX Runtime (for react-jsx transform)
export { jsx, jsxs, Fragment } from './index.js';
"#;

/// The type definitions of the JSX runtime entry (`jsx-runtime.d.ts`).
pub const RNL_JSX_RUNTIME_TYPES: &'static str = r#"// RNL JSX Runtime Types
export { jsx, jsxs, Fragment } from './index';
"#;

/// Part of the `package.json` of a new project.
pub const PACKAGE_JSON_HEAD: &'static str = r#"{
  "name": ""#;

/// Part of the `package.json` of a new project.
pub const PACKAGE_JSON_AFTER_NAME: &'static str = r#"",
  "version": ""#;

/// Part of the `package.json` of a new project.
pub const PACKAGE_JSON_AFTER_VERSION: &'static str = r#"",
  "description": ""#;

/// Part of the `package.json` of a new project.
pub const PACKAGE_JSON_TAIL: &'static str = r#"",
  "main": "src/index.tsx",
  "scripts": {
    "build": "rnl build",
    "start": "rnl run",
    "typecheck": "tsc --noEmit"
  },
  "dependencies": {
    "react": "^18.2.0"
  },
  "devDependencies": {
    "@types/react": "^18.2.0",
    "typescript": "^5.3.0",
    "esbuild": "^0.20.0"
  }
}
"#;

/// Part of the `src/App.tsx` component of a new project.
pub const APP_TSX_HEAD: &'static str = r#"import { useState } from 'rnl';

export function App() {
    const [count, setCount] = useState(0);

    return (
        <box orientation="vertical" spacing={12} style={{ padding: 24 }}>
            <text>Welcome to "#;

/// Part of the `src/App.tsx` component of a new project.
pub const APP_TSX_TAIL: &'static str = r#"!</text>
            
            <box orientation="horizontal" spacing={8}>
                <button label="-" onClick={() => setCount(c => c - 1)} />
                <text>{String(count)}</text>
                <button label="+" onClick={() => setCount(c => c + 1)} />
            </box>
            
            <button 
                label="Reset" 
                onClick={() => setCount(0)}
                enabled={count !== 0}
            />
        </box>
    );
}
"#;

/// Part of the `README.md` of a new project.
pub const README_HEAD: &'static str = r#"# "#;

/// Part of the `README.md` of a new project.
pub const README_MIDDLE: &'static str = r#"

An application built with [RNL](https://github.com/neutrino2211/rnl) (React Native Libre).

## Getting Started

```bash
# Install dependencies
npm install

# Build the application
rnl build

# Run the application
rnl run
```

## Project Structure

```
"#;

/// Part of the `README.md` of a new project.
pub const README_TAIL: &'static str = r#"/
├── src/              # React/TypeScript source code
│   ├── index.tsx     # Entry point
│   └── App.tsx       # Main app component
├── core/             # Rust core (usually not modified)
├── platforms/        # Platform-specific implementations
├── rnl.toml          # Project configuration
└── package.json      # Node.js dependencies
```

## Building for Release

```bash
rnl build --release
```

## Learn More

- [RNL Documentation](https://rnl.dev/docs)
- [React Documentation](https://react.dev)
"#;

// ---------------------------------------------------------------------------
// Generated files
// ---------------------------------------------------------------------------

/// The `package.json` of a project.
pub open spec fn package_json_text(name: Seq<char>, version: Seq<char>, description: Seq<char>) -> Seq<char> {
    PACKAGE_JSON_HEAD@ + name + PACKAGE_JSON_AFTER_NAME@ + version + PACKAGE_JSON_AFTER_VERSION@
        + description + PACKAGE_JSON_TAIL@
}

/// The `src/App.tsx` of a project called `name`: a counter that greets the project.
pub open spec fn app_tsx_text(name: Seq<char>) -> Seq<char> {
    APP_TSX_HEAD@ + name + APP_TSX_TAIL@
}

/// The `README.md` of a project called `name`.
pub open spec fn readme_text(name: Seq<char>) -> Seq<char> {
    README_HEAD@ + name + README_MIDDLE@ + name + README_TAIL@
}

/// The `package.json` of the project described by `data`.
pub fn generate_package_json(data: &ProjectData) -> (s: String)
    ensures
        s@ == package_json_text(data.name@, data.version@, data.description@),
{
    let mut s = String::from_str(PACKAGE_JSON_HEAD);
    s.append(data.name.as_str());
    s.append(PACKAGE_JSON_AFTER_NAME);
    s.append(data.version.as_str());
    s.append(PACKAGE_JSON_AFTER_VERSION);
    s.append(data.description.as_str());
    s.append(PACKAGE_JSON_TAIL);
    s
}

/// The `tsconfig.json` of a new project.
pub fn generate_tsconfig() -> (s: String)
    ensures
        s@ == TSCONFIG@,
{
    String::from_str(TSCONFIG)
}

/// The entry point `src/index.tsx` of a new project.
pub fn generate_index_tsx() -> (s: String)
    ensures
        s@ == INDEX_TSX@,
{
    String::from_str(INDEX_TSX)
}

/// The `src/App.tsx` of a project called `name`.
pub fn generate_app_tsx(name: &str) -> (s: String)
    ensures
        s@ == app_tsx_text(name@),
{
    let mut s = String::from_str(APP_TSX_HEAD);
    s.append(name);
    s.append(APP_TSX_TAIL);
    s
}

/// The `.gitignore` of a new project.
pub fn generate_gitignore() -> (s: String)
    ensures
        s@ == GITIGNORE@,
{
    String::from_str(GITIGNORE)
}

/// The `README.md` of a project called `name`.
pub fn generate_readme(name: &str) -> (s: String)
    ensures
        s@ == readme_text(name@),
{
    let mut s = String::from_str(README_HEAD);
    s.append(name);
    s.append(README_MIDDLE);
    s.append(name);
    s.append(README_TAIL);
    s
}

/// The `package.json` of the `rnl` shim package.
pub fn generate_rnl_package_json() -> (s: String)
    ensures
        s@ == RNL_PACKAGE_JSON@,
{
    String::from_str(RNL_PACKAGE_JSON)
}

/// The `rnl` runtime shim.
pub fn generate_rnl_shim() -> (s: String)
    ensures
        s@ == RNL_SHIM@,
{
    String::from_str(RNL_SHIM)
}

/// The type definitions of the `rnl` shim.
pub fn generate_rnl_types() -> (s: String)
    ensures
        s@ == RNL_TYPES@,
{
    String::from_str(RNL_TYPES)
}

/// The JSX runtime entry of the `rnl` shim.
pub fn generate_rnl_jsx_runtime() -> (s: String)
    ensures
        s@ == RNL_JSX_RUNTIME@,
{
    String::from_str(RNL_JSX_RUNTIME)
}

/// The type definitions of the JSX runtime entry.
pub fn generate_rnl_jsx_runtime_types() -> (s: String)
    ensures
        s@ == RNL_JSX_RUNTIME_TYPES@,
{
    String::from_str(RNL_JSX_RUNTIME_TYPES)
}

// ---------------------------------------------------------------------------
// Options and project layout
// ---------------------------------------------------------------------------

/// Why `rnl init` refused.
pub enum InitError {
    /// A requested platform is not one of linux, macos, windows.
    UnknownPlatform(String),
    /// The project directory (as displayed) exists already.
    DirectoryExists(String),
}

impl InitError {
    pub open spec fn message_spec(&self) -> Seq<char> {
        match self {
            InitError::UnknownPlatform(p) => "Unknown platform: "@ + p@
                + ". Valid options: linux, macos, windows"@,
            InitError::DirectoryExists(d) => "Directory '"@ + d@
                + "' already exists. Use --dir to specify a different location."@,
        }
    }

    /// The error message.
    pub fn message(&self) -> (m: String)
        ensures
            m@ == self.message_spec(),
    {
        match self {
            InitError::UnknownPlatform(p) => {
                let mut m = String::from_str("Unknown platform: ");
                m.append(p.as_str());
                m.append(". Valid options: linux, macos, windows");
                m
            },
            InitError::DirectoryExists(d) => {
                let mut m = String::from_str("Directory '");
                m.append(d.as_str());
                m.append("' already exists. Use --dir to specify a different location.");
                m
            },
        }
    }
}

/// The platforms that RNL supports.
pub open spec fn is_known_platform(p: Seq<char>) -> bool {
    p == "linux"@ || p == "macos"@ || p == "windows"@
}

/// Whether `p` names a platform that RNL supports.
pub fn known_platform(p: &str) -> (r: bool)
    ensures
        r == is_known_platform(p@),
{
    str_eq(p, "linux") || str_eq(p, "macos") || str_eq(p, "windows")
}

/// The platforms named in a comma-separated list, each trimmed.
pub open spec fn requested_platforms(list: Seq<char>) -> Seq<Seq<char>> {
    split_seq(list, ',').map_values(|p: Seq<char>| trim_seq(p))
}

/// Splits the `--platforms` option into platform names and checks each.
pub fn parse_platforms(list: &str) -> (r: Result<Vec<String>, InitError>)
    ensures
        match r {
            Ok(names) => strings_view(names@) == requested_platforms(list@) && forall|i: int|
                0 <= i < names@.len() ==> is_known_platform(#[trigger] names@[i]@),
            Err(InitError::UnknownPlatform(p)) => exists|i: int|
                0 <= i < requested_platforms(list@).len() && requested_platforms(list@)[i] == p@
                    && !is_known_platform(p@) && forall|j: int|
                    0 <= j < i ==> is_known_platform(#[trigger] requested_platforms(list@)[j]),
            Err(InitError::DirectoryExists(_)) => false,
        },
{
    let pieces = split(list, ',');
    let ghost wanted = requested_platforms(list@);
    assert(wanted.len() == strings_view(pieces@).len());
    let mut names: Vec<String> = Vec::new();
    let mut i: usize = 0;
    while i < pieces.len()
        invariant
            i <= pieces@.len(),
            wanted == requested_platforms(list@),
            strings_view(pieces@) == split_seq(list@, ','),
            strings_view(names@) == wanted.take(i as int),
            names@.len() == i,
            wanted.len() == pieces@.len(),
            forall|j: int| 0 <= j < names@.len() ==> is_known_platform(#[trigger] names@[j]@),
        decreases pieces@.len() - i,
    {
        let name = trim(pieces[i].as_str());
        assert(name@ == wanted[i as int]);
        if !known_platform(name.as_str()) {
            proof {
                assert forall|j: int| 0 <= j < i implies is_known_platform(#[trigger] wanted[j]) by {
                    assert(strings_view(names@)[j] == wanted.take(i as int)[j]);
                    assert(strings_view(names@)[j] == names@[j]@);
                    assert(is_known_platform(names@[j]@));
                }
            }
            return Err(InitError::UnknownPlatform(name));
        }
        let ghost before = names@;
        let ghost name_view = name@;
        assert(strings_view(before).len() == before.len());
        names.push(name);
        assert(names@ == before.push(name));
        assert forall|j: int| 0 <= j < i implies strings_view(names@)[j] == wanted[j] by {
            assert(names@[j] == before[j]);
            assert(strings_view(before)[j] == wanted.take(i as int)[j]);
        }
        assert(strings_view(names@)[i as int] == name_view);
        i = i + 1;
        assert(strings_view(names@) =~= wanted.take(i as int));
    }
    assert(wanted.take(i as int) =~= wanted);
    Ok(names)
}

/// The directory of the new project: the one given with `--dir`, else the
/// project's name.
pub fn project_dir(opts: &InitOpts) -> (dir: String)
    ensures
        dir@ == match opts.dir {
            Some(d) => d@,
            None => opts.name@,
        },
{
    match &opts.dir {
        Some(d) => d.clone(),
        None => opts.name.clone(),
    }
}

/// The directories that every new project gets, relative to the project directory.
pub fn project_directories() -> (dirs: Vec<&'static str>)
    ensures
        dirs@.len() == 5,
        dirs@[0]@ == ""@,
        dirs@[1]@ == "src"@,
        dirs@[2]@ == "core"@,
        dirs@[3]@ == "core/src"@,
        dirs@[4]@ == "core/include"@,
{
    let mut dirs: Vec<&'static str> = Vec::new();
    dirs.push("");
    dirs.push("src");
    dirs.push("core");
    dirs.push("core/src");
    dirs.push("core/include");
    dirs
}

/// The directory of a platform's sources in a new project.
pub open spec fn platform_dir_spec(p: Seq<char>) -> Option<Seq<char>> {
    if p == "linux"@ {
        Some("platforms/linux/src/elements"@)
    } else if p == "macos"@ {
        Some("platforms/macos/Sources/Elements"@)
    } else if p == "windows"@ {
        Some("platforms/windows/src"@)
    } else {
        None
    }
}

/// The directory of `platform`'s sources, for the platforms RNL supports.
pub fn platform_source_dir(platform: &str) -> (r: Option<&'static str>)
    ensures
        match r {
            Some(d) => platform_dir_spec(platform@) == Some(d@),
            None => platform_dir_spec(platform@) is None,
        },
{
    if str_eq(platform, "linux") {
        Some("platforms/linux/src/elements")
    } else if str_eq(platform, "macos") {
        Some("platforms/macos/Sources/Elements")
    } else if str_eq(platform, "windows") {
        Some("platforms/windows/src")
    } else {
        None
    }
}

/// The (path, contents) of a generated file.
pub open spec fn file_view(f: GeneratedFile) -> (Seq<char>, Seq<char>) {
    (f.path@, f.content@)
}

/// The files of a new project called `name`, other than `rnl.toml`, in the
/// order they are written.
pub open spec fn project_files_spec(name: Seq<char>) -> Seq<(Seq<char>, Seq<char>)> {
    seq![
        ("package.json"@, package_json_text(name, "0.1.0"@, name + " - An RNL application"@)),
        ("tsconfig.json"@, TSCONFIG@),
        ("src/index.tsx"@, INDEX_TSX@),
        ("src/App.tsx"@, app_tsx_text(name)),
        ("node_modules/rnl/package.json"@, RNL_PACKAGE_JSON@),
        ("node_modules/rnl/index.js"@, RNL_SHIM@),
        ("node_modules/rnl/index.d.ts"@, RNL_TYPES@),
        ("node_modules/rnl/jsx-runtime.js"@, RNL_JSX_RUNTIME@),
        ("node_modules/rnl/jsx-runtime.d.ts"@, RNL_JSX_RUNTIME_TYPES@),
        (".gitignore"@, GITIGNORE@),
        ("README.md"@, readme_text(name)),
    ]
}

/// The files of a new project called `name` for `platforms`, other than
/// `rnl.toml`, in the order they are written.
pub fn project_files(name: &str, platforms: &[&str]) -> (files: Vec<GeneratedFile>)
    ensures
        files@.map_values(|f: GeneratedFile| file_view(f)) == project_files_spec(name@),
{
    let data = ProjectData::new(name, platforms);
    let mut files: Vec<GeneratedFile> = Vec::new();
    files.push(generated_file("package.json", generate_package_json(&data)));
    files.push(generated_file("tsconfig.json", generate_tsconfig()));
    files.push(generated_file("src/index.tsx", generate_index_tsx()));
    files.push(generated_file("src/App.tsx", generate_app_tsx(name)));
    files.push(generated_file("node_modules/rnl/package.json", generate_rnl_package_json()));
    files.push(generated_file("node_modules/rnl/index.js", generate_rnl_shim()));
    files.push(generated_file("node_modules/rnl/index.d.ts", generate_rnl_types()));
    files.push(generated_file("node_modules/rnl/jsx-runtime.js", generate_rnl_jsx_runtime()));
    files.push(
        generated_file("node_modules/rnl/jsx-runtime.d.ts", generate_rnl_jsx_runtime_types()),
    );
    files.push(generated_file(".gitignore", generate_gitignore()));
    files.push(generated_file("README.md", generate_readme(name)));
    assert(files@.map_values(|f: GeneratedFile| file_view(f)) =~= project_files_spec(name@));
    files
}

} // verus!
