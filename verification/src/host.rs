//! The contract between the payload and the host that loaded it.
//!
//! The host supplies one value implementing [`HostServices`]: a fixed set of
//! named capabilities. Each capability either queries the host (a thread-key
//! value, a slider value, a licensing check) or asks it to act (log a line,
//! run a script, build a widget, unload the payload). The observable host
//! state is modelled by one record, [`HostState`]; every method's contract is
//! an exact equation over it: an acting call appends itself to the call log
//! and touches nothing else the payload can see, and nothing but the ejection
//! capability ever ejects.
//!
//! Floating-point amounts (spacing, slider bounds, delta time) travel as the
//! raw bit patterns of the host's 32-bit values; this layer never interprets
//! them.

use vstd::prelude::*;

verus! {

/// A handle to the process that owns the payload, as given at entry.
/// The payload never reads it; it only hands it back to the host on ejection.
#[derive(Clone, Copy, PartialEq, Eq, Structural, Debug)]
pub struct ProcessHandle(pub u64);

/// A handle to the loaded payload module, as given at entry.
/// The payload never reads it; it only hands it back to the host on ejection.
#[derive(Clone, Copy, PartialEq, Eq, Structural, Debug)]
pub struct ModuleHandle(pub u64);

/// An opaque token standing for a button callback. The host resolves it;
/// this layer never calls through it.
#[derive(Clone, Copy, PartialEq, Eq, Structural, Debug)]
pub struct CallbackToken(pub u64);

/// One capability invocation, as it appears in the host's call log.
///
/// Every acting capability appends exactly one entry with its arguments
/// unchanged; queries append nothing.
pub enum HostCall {
    /// A line logged to the host's side messages and to standard output.
    Log(Seq<char>),
    /// A script handed to the host's script engine, with the send-to-party
    /// and use-main-thread switches.
    PxExecute(Seq<char>, bool, bool),
    /// A request that the host unload the payload module.
    Eject(ProcessHandle, ModuleHandle),
    /// Source handed to the host's Rune virtual machine.
    RuneExecute(Seq<char>),
    /// A new custom window.
    UiAddWindow(Seq<char>),
    /// Focus moved to the named window.
    UiFocusWindow(Seq<char>),
    /// A new label: identifier, text, font index.
    UiAddLabel(Seq<char>, Seq<char>, usize),
    /// A new button: identifier, text, script source, optional callback.
    UiAddButton(Seq<char>, Seq<char>, Seq<char>, Option<CallbackToken>),
    /// A new horizontal separator.
    UiAddSeparator(Seq<char>),
    /// Spacing between widgets: identifier, then the two amounts as raw bits.
    UiAddSpacing(Seq<char>, u32, u32),
    /// A new thread key, created with value `false`.
    CreateThreadKey(Seq<char>),
    /// A thread key set to a value.
    SetThreadKey(Seq<char>, bool),
    /// The next widget placed on the currently active line.
    UiSetNextItemSameLine(Seq<char>),
    /// A label with a custom font: identifier, text, relative font path.
    UiAddCustomFontLabel(Seq<char>, Seq<char>, Seq<char>),
    /// The named widget removed from the focused window.
    UiRemoveWidget(Seq<char>),
    /// Every widget removed from the focused window.
    UiRemoveAllWidgets,
    /// A new integer slider: identifier, text, minimum, maximum, optional
    /// script source.
    UiAddI32Slider(Seq<char>, Seq<char>, i32, i32, Option<Seq<char>>),
    /// A new fractional slider: identifier, text, then minimum and maximum as
    /// raw bits, and optional script source.
    UiAddF32Slider(Seq<char>, Seq<char>, u32, u32, Option<Seq<char>>),
}

/// Everything the payload can observe of the host through the capability
/// table: the log of acting calls, the named thread keys, the slider values,
/// and the fixed environment (delta time, readable memory, licensing
/// answers), plus the ejections the host was asked to perform.
#[verifier::ext_equal]
pub struct HostState {
    /// Every acting capability call made so far, oldest first.
    pub calls: Seq<HostCall>,
    /// The named thread keys that have been given a value.
    pub thread_keys: Map<Seq<char>, bool>,
    /// The integer sliders that currently hold a value.
    pub i32_sliders: Map<Seq<char>, i32>,
    /// The fractional sliders that currently hold a value, as raw bits.
    pub f32_sliders: Map<Seq<char>, u32>,
    /// The raw bits of the host's current delta time.
    pub delta_time_bits: u32,
    /// The text readable at each mapped address of the host process.
    pub memory: Map<i64, Seq<char>>,
    /// The product and bearer-token pairs the licensing service accepts.
    pub entitlements: Set<(Seq<char>, Seq<char>)>,
    /// The serials present in the host's configuration.
    pub serials: Set<Seq<char>>,
    /// Every ejection the host was asked to perform, oldest first.
    pub ejections: Seq<(ProcessHandle, ModuleHandle)>,
}

impl HostState {
    /// A host that has done nothing and holds no keys, sliders, memory,
    /// entitlements or serials.
    pub open spec fn initial() -> HostState {
        HostState {
            calls: Seq::empty(),
            thread_keys: Map::empty(),
            i32_sliders: Map::empty(),
            f32_sliders: Map::empty(),
            delta_time_bits: 0,
            memory: Map::empty(),
            entitlements: Set::empty(),
            serials: Set::empty(),
            ejections: Seq::empty(),
        }
    }

    /// This state with one more call in the log and nothing else changed.
    pub open spec fn logged(self, call: HostCall) -> HostState {
        HostState { calls: self.calls.push(call), ..self }
    }

    /// This state with one thread key set and nothing else changed.
    pub open spec fn with_thread_key(self, name: Seq<char>, value: bool) -> HostState {
        HostState { thread_keys: self.thread_keys.insert(name, value), ..self }
    }

    /// This state with one more ejection performed and nothing else changed.
    pub open spec fn with_ejection(self, process: ProcessHandle, payload: ModuleHandle) -> HostState {
        HostState { ejections: self.ejections.push((process, payload)), ..self }
    }

    /// The value of a named thread key; `false` while the key was never set.
    pub open spec fn thread_key_value(self, name: Seq<char>) -> bool {
        value_or(self.thread_keys, name, false)
    }

    /// The value of a named integer slider; `0` while none is known.
    pub open spec fn i32_slider_value(self, identifier: Seq<char>) -> i32 {
        value_or(self.i32_sliders, identifier, 0)
    }

    /// The raw bits of a named fractional slider; `0` while none is known.
    pub open spec fn f32_slider_value_bits(self, identifier: Seq<char>) -> u32 {
        value_or(self.f32_sliders, identifier, 0)
    }

    /// The text readable at an address; empty where nothing is mapped.
    pub open spec fn string_at(self, address: i64) -> Seq<char> {
        value_or(self.memory, address, Seq::empty())
    }

    /// Whether the licensing service accepts this product and bearer token.
    pub open spec fn is_paying(self, product_id: Seq<char>, bearer_token: Seq<char>) -> bool {
        self.entitlements.contains((product_id, bearer_token))
    }

    /// Whether the host's configuration holds the given serial.
    pub open spec fn has_serial(self, serial: Seq<char>) -> bool {
        self.serials.contains(serial)
    }
}

/// The value a map holds at a key, or a default where the key is absent.
pub open spec fn value_or<K, V>(map: Map<K, V>, key: K, default: V) -> V {
    if map.dom().contains(key) {
        map[key]
    } else {
        default
    }
}

/// The view of an optional string.
pub open spec fn view_of_option(source: Option<String>) -> Option<Seq<char>> {
    match source {
        Some(s) => Some(s@),
        None => None,
    }
}

/// The set of capabilities a host supplies to the payload.
///
/// `state` is the abstract host state a payload can observe through the
/// table. Each method's contract is exact: a query returns precisely the
/// modelled value and changes nothing, and an acting call produces precisely
/// the modelled next state.
pub trait HostServices: Sized {
    /// The host state as observable through this table.
    spec fn state(&self) -> HostState;

    /// Logs a line to the host's side messages and to standard output.
    fn dynamic_log(&mut self, message: &str)
        ensures
            final(self).state() == old(self).state().logged(HostCall::Log(message@)),
    ;

    /// Reads a string at an address of the host process.
    fn memory_read_string(&self, address: i64) -> (text: String)
        ensures
            text@ == self.state().string_at(address),
    ;

    /// Executes a script, optionally sending it to the party and optionally
    /// on the host's main thread.
    fn pxscript_execute(&mut self, code: String, send_to_party: bool, use_main_thread: bool)
        ensures
            final(self).state() == old(self).state().logged(
                HostCall::PxExecute(code@, send_to_party, use_main_thread),
            ),
    ;

    /// Returns the host's current delta time, as the raw bits of its 32-bit
    /// floating-point value.
    fn dynamic_get_delta_time(&self) -> (bits: u32)
        ensures
            bits == self.state().delta_time_bits,
    ;

    /// Asks the host to unload the payload module. The host performs the
    /// unmap, because the payload cannot unmap the code it is running from.
    fn dynamic_eject_payload(&mut self, process: ProcessHandle, payload: ModuleHandle)
        ensures
            final(self).state() == old(self).state().logged(
                HostCall::Eject(process, payload),
            ).with_ejection(process, payload),
    ;

    /// Hands source to the host's Rune virtual machine.
    fn rune_vm_execute(&mut self, source: String)
        ensures
            final(self).state() == old(self).state().logged(HostCall::RuneExecute(source@)),
    ;

    /// Allocates and displays a new custom window.
    fn ui_add_window(&mut self, name: String)
        ensures
            final(self).state() == old(self).state().logged(HostCall::UiAddWindow(name@)),
    ;

    /// Focuses the named window if present.
    fn ui_focus_window(&mut self, name: String)
        ensures
            final(self).state() == old(self).state().logged(HostCall::UiFocusWindow(name@)),
    ;

    /// Creates a new label with the given content.
    fn ui_add_label(&mut self, identifier: String, text: String, font_id: usize)
        ensures
            final(self).state() == old(self).state().logged(
                HostCall::UiAddLabel(identifier@, text@, font_id),
            ),
    ;

    /// Creates a new button with the given text, script source, and optional
    /// callback token.
    fn ui_add_button(
        &mut self,
        identifier: String,
        text: String,
        source: String,
        callback: Option<CallbackToken>,
    )
        ensures
            final(self).state() == old(self).state().logged(
                HostCall::UiAddButton(identifier@, text@, source@, callback),
            ),
    ;

    /// Adds a new horizontal separator.
    fn ui_add_separator(&mut self, identifier: String)
        ensures
            final(self).state() == old(self).state().logged(HostCall::UiAddSeparator(identifier@)),
    ;

    /// Adds spacing between widgets; the amounts are raw bits of the host's
    /// 32-bit floating-point values.
    fn ui_add_spacing(&mut self, identifier: String, x_bits: u32, y_bits: u32)
        ensures
            final(self).state() == old(self).state().logged(
                HostCall::UiAddSpacing(identifier@, x_bits, y_bits),
            ),
    ;

    /// Creates a globally accessible thread key holding `false`.
    fn create_thread_key(&mut self, identifier: String)
        ensures
            final(self).state() == old(self).state().logged(
                HostCall::CreateThreadKey(identifier@),
            ).with_thread_key(identifier@, false),
    ;

    /// Sets the value of a thread key.
    fn set_thread_key_value(&mut self, identifier: String, value: bool)
        ensures
            final(self).state() == old(self).state().logged(
                HostCall::SetThreadKey(identifier@, value),
            ).with_thread_key(identifier@, value),
    ;

    /// Returns the value of a thread key.
    fn get_thread_key(&self, identifier: String) -> (value: bool)
        ensures
            value == self.state().thread_key_value(identifier@),
    ;

    /// Returns the current value of an integer slider.
    fn get_i32_slider_value(&self, identifier: String) -> (value: i32)
        ensures
            value == self.state().i32_slider_value(identifier@),
    ;

    /// Returns the current value of a fractional slider, as the raw bits of
    /// the host's 32-bit floating-point value.
    fn get_f32_slider_value(&self, identifier: String) -> (bits: u32)
        ensures
            bits == self.state().f32_slider_value_bits(identifier@),
    ;

    /// Places the next upcoming widget on the currently active line.
    fn ui_set_next_item_same_line(&mut self, identifier: String)
        ensures
            final(self).state() == old(self).state().logged(
                HostCall::UiSetNextItemSameLine(identifier@),
            ),
    ;

    /// Adds a new label drawn with a custom font loaded from a relative path.
    fn ui_add_custom_font_label(
        &mut self,
        identifier: String,
        text: String,
        relative_font_path: String,
    )
        ensures
            final(self).state() == old(self).state().logged(
                HostCall::UiAddCustomFontLabel(identifier@, text@, relative_font_path@),
            ),
    ;

    /// Removes the named widget from the focused window.
    fn ui_remove_widget(&mut self, identifier: String)
        ensures
            final(self).state() == old(self).state().logged(HostCall::UiRemoveWidget(identifier@)),
    ;

    /// Removes all widgets from the focused window.
    fn ui_remove_all_widgets(&mut self)
        ensures
            final(self).state() == old(self).state().logged(HostCall::UiRemoveAllWidgets),
    ;

    /// Adds an integer slider, with optional script source run on change.
    fn ui_add_i32_slider(
        &mut self,
        identifier: String,
        text: String,
        min: i32,
        max: i32,
        rune_code: Option<String>,
    )
        ensures
            final(self).state() == old(self).state().logged(
                HostCall::UiAddI32Slider(identifier@, text@, min, max, view_of_option(rune_code)),
            ),
    ;

    /// Adds a fractional slider whose bounds are raw bits of the host's
    /// 32-bit floating-point values, with optional script source run on
    /// change.
    fn ui_add_f32_slider(
        &mut self,
        identifier: String,
        text: String,
        min_bits: u32,
        max_bits: u32,
        rune_code: Option<String>,
    )
        ensures
            final(self).state() == old(self).state().logged(
                HostCall::UiAddF32Slider(
                    identifier@,
                    text@,
                    min_bits,
                    max_bits,
                    view_of_option(rune_code),
                ),
            ),
    ;

    /// Asks the licensing service whether the user pays for a product.
    fn sellix_is_paying_for_product(&self, product_id: String, bearer_token: String) -> (paying:
        bool)
        ensures
            paying == self.state().is_paying(product_id@, bearer_token@),
    ;

    /// Asks the host's configuration whether it holds a serial.
    fn config_has_serial(&self, serial: String) -> (present: bool)
        ensures
            present == self.state().has_serial(serial@),
    ;
}

} // verus!
