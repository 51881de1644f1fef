//! The process-wide publication point for the capability table, and the
//! typed accessor layer over it.
//!
//! A [`Gateway`] starts empty. The host's table is published through
//! [`Gateway::initialize`] at most once: the first caller wins and every
//! later call is ignored, not an error. Each accessor forwards its arguments
//! unchanged to the corresponding capability and hands its result back
//! unchanged — except while no table is present, when a query answers its
//! documented default (`false`, `0`, empty) and an acting call does nothing
//! at all. Absence of a table is a valid, permanent state: no accessor ever
//! blocks or fails for want of one.

use vstd::prelude::*;

use crate::host::CallbackToken;
use crate::host::HostCall;
use crate::host::HostServices;
use crate::host::ModuleHandle;
use crate::host::ProcessHandle;
use crate::host::view_of_option;

verus! {

/// The payload's view of the host: an at-most-once published capability
/// table behind a layer of defaulting accessors.
pub struct Gateway<H> {
    table: Option<H>,
}

impl<H> Gateway<H> {
    /// Whether a capability table has been published.
    pub closed spec fn initialized(&self) -> bool {
        self.table is Some
    }

    /// The published capability table.
    pub closed spec fn host(&self) -> H
        recommends
            self.initialized(),
    {
        self.table.unwrap()
    }

    /// The gateway after an initialization attempt with `functions`:
    /// the first table wins, any later one is ignored.
    pub closed spec fn init_with(self, functions: H) -> Gateway<H> {
        if self.initialized() {
            self
        } else {
            (Gateway { table: Some(functions) })
        }
    }

    /// A gateway with no capability table published yet.
    pub fn new() -> (gateway: Gateway<H>)
        ensures
            !gateway.initialized(),
    {
        Gateway { table: None }
    }

    /// Publishes the capability table, at most once. The first caller wins;
    /// a call on an already-initialized gateway changes nothing.
    pub fn initialize(&mut self, functions: H)
        ensures
            *final(self) == old(self).init_with(functions),
            final(self).initialized(),
            !old(self).initialized() ==> final(self).host() == functions,
            old(self).initialized() ==> *final(self) == *old(self),
    {
        if self.table.is_none() {
            self.table = Some(functions);
        }
    }

    /// The published table, for callers that want to reach it directly;
    /// `None` while no table was published.
    pub fn table(&self) -> (table: Option<&H>)
        ensures
            match table {
                Some(h) => self.initialized() && *h == self.host(),
                None => !self.initialized(),
            },
    {
        match &self.table {
            Some(h) => Some(h),
            None => None,
        }
    }
}

/// Law: publication is first-wins, so initializing twice — even with
/// different tables — leaves exactly the state the first call produced.
pub proof fn lemma_initialize_first_wins<H>(gateway: Gateway<H>, first: H, second: H)
    ensures
        gateway.init_with(first).init_with(second) == gateway.init_with(first),
{
}

impl<H: HostServices> Gateway<H> {
    /// Logs a line through the host, or does nothing while uninitialized.
    pub fn dynamic_log(&mut self, message: &str)
        ensures
            !old(self).initialized() ==> *final(self) == *old(self),
            old(self).initialized() ==> final(self).initialized(),
            old(self).initialized() ==> final(self).host().state() == old(self).host().state().logged(
                HostCall::Log(message@),
            ),
    {
        if let Some(table) = &mut self.table {
            table.dynamic_log(message);
        }
    }

    /// Reads a string at an address of the host process, or answers the
    /// empty string while uninitialized.
    pub fn memory_read_string(&self, address: i64) -> (text: String)
        ensures
            self.initialized() ==> text@ == self.host().state().string_at(address),
            !self.initialized() ==> text@ == Seq::<char>::empty(),
    {
        match &self.table {
            Some(table) => table.memory_read_string(address),
            None => String::new(),
        }
    }

    /// Executes a script through the host, or does nothing while
    /// uninitialized.
    pub fn pxscript_execute(&mut self, code: String, send_to_party: bool, use_main_thread: bool)
        ensures
            !old(self).initialized() ==> *final(self) == *old(self),
            old(self).initialized() ==> final(self).initialized(),
            old(self).initialized() ==> final(self).host().state() == old(self).host().state().logged(
                HostCall::PxExecute(code@, send_to_party, use_main_thread),
            ),
    {
        if let Some(table) = &mut self.table {
            table.pxscript_execute(code, send_to_party, use_main_thread);
        }
    }

    /// Returns the host's delta time as raw bits, or `0` (the bits of zero)
    /// while uninitialized.
    pub fn dynamic_get_delta_time(&self) -> (bits: u32)
        ensures
            self.initialized() ==> bits == self.host().state().delta_time_bits,
            !self.initialized() ==> bits == 0,
    {
        match &self.table {
            Some(table) => table.dynamic_get_delta_time(),
            None => 0,
        }
    }

    /// Asks the host to unload the payload, or does nothing while
    /// uninitialized.
    pub fn dynamic_eject_payload(&mut self, process: ProcessHandle, payload: ModuleHandle)
        ensures
            !old(self).initialized() ==> *final(self) == *old(self),
            old(self).initialized() ==> final(self).initialized(),
            old(self).initialized() ==> final(self).host().state() == old(self).host().state().logged(
                HostCall::Eject(process, payload),
            ).with_ejection(process, payload),
    {
        if let Some(table) = &mut self.table {
            table.dynamic_eject_payload(process, payload);
        }
    }

    /// Hands source to the host's Rune virtual machine, or does nothing
    /// while uninitialized.
    pub fn rune_vm_execute(&mut self, source: String)
        ensures
            !old(self).initialized() ==> *final(self) == *old(self),
            old(self).initialized() ==> final(self).initialized(),
            old(self).initialized() ==> final(self).host().state() == old(self).host().state().logged(
                HostCall::RuneExecute(source@),
            ),
    {
        if let Some(table) = &mut self.table {
            table.rune_vm_execute(source);
        }
    }

    /// Opens a new custom window, or does nothing while uninitialized.
    pub fn ui_add_window(&mut self, name: String)
        ensures
            !old(self).initialized() ==> *final(self) == *old(self),
            old(self).initialized() ==> final(self).initialized(),
            old(self).initialized() ==> final(self).host().state() == old(self).host().state().logged(
                HostCall::UiAddWindow(name@),
            ),
    {
        if let Some(table) = &mut self.table {
            table.ui_add_window(name);
        }
    }

    /// Focuses the named window, or does nothing while uninitialized.
    pub fn ui_focus_window(&mut self, name: String)
        ensures
            !old(self).initialized() ==> *final(self) == *old(self),
            old(self).initialized() ==> final(self).initialized(),
            old(self).initialized() ==> final(self).host().state() == old(self).host().state().logged(
                HostCall::UiFocusWindow(name@),
            ),
    {
        if let Some(table) = &mut self.table {
            table.ui_focus_window(name);
        }
    }

    /// Creates a label, or does nothing while uninitialized.
    pub fn ui_add_label(&mut self, identifier: String, text: String, font_id: usize)
        ensures
            !old(self).initialized() ==> *final(self) == *old(self),
            old(self).initialized() ==> final(self).initialized(),
            old(self).initialized() ==> final(self).host().state() == old(self).host().state().logged(
                HostCall::UiAddLabel(identifier@, text@, font_id),
            ),
    {
        if let Some(table) = &mut self.table {
            table.ui_add_label(identifier, text, font_id);
        }
    }

    /// Creates a button, or does nothing while uninitialized.
    pub fn ui_add_button(
        &mut self,
        identifier: String,
        text: String,
        source: String,
        callback: Option<CallbackToken>,
    )
        ensures
            !old(self).initialized() ==> *final(self) == *old(self),
            old(self).initialized() ==> final(self).initialized(),
            old(self).initialized() ==> final(self).host().state() == old(self).host().state().logged(
                HostCall::UiAddButton(identifier@, text@, source@, callback),
            ),
    {
        if let Some(table) = &mut self.table {
            table.ui_add_button(identifier, text, source, callback);
        }
    }

    /// Adds a horizontal separator, or does nothing while uninitialized.
    pub fn ui_add_separator(&mut self, identifier: String)
        ensures
            !old(self).initialized() ==> *final(self) == *old(self),
            old(self).initialized() ==> final(self).initialized(),
            old(self).initialized() ==> final(self).host().state() == old(self).host().state().logged(
                HostCall::UiAddSeparator(identifier@),
            ),
    {
        if let Some(table) = &mut self.table {
            table.ui_add_separator(identifier);
        }
    }

    /// Adds spacing between widgets, or does nothing while uninitialized.
    /// The amounts are raw bits of the host's 32-bit floating-point values.
    pub fn ui_add_spacing(&mut self, identifier: String, x_bits: u32, y_bits: u32)
        ensures
            !old(self).initialized() ==> *final(self) == *old(self),
            old(self).initialized() ==> final(self).initialized(),
            old(self).initialized() ==> final(self).host().state() == old(self).host().state().logged(
                HostCall::UiAddSpacing(identifier@, x_bits, y_bits),
            ),
    {
        if let Some(table) = &mut self.table {
            table.ui_add_spacing(identifier, x_bits, y_bits);
        }
    }

    /// Creates a thread key holding `false`, or does nothing while
    /// uninitialized.
    pub fn create_thread_key(&mut self, identifier: String)
        ensures
            !old(self).initialized() ==> *final(self) == *old(self),
            old(self).initialized() ==> final(self).initialized(),
            old(self).initialized() ==> final(self).host().state() == old(self).host().state().logged(
                HostCall::CreateThreadKey(identifier@),
            ).with_thread_key(identifier@, false),
    {
        if let Some(table) = &mut self.table {
            table.create_thread_key(identifier);
        }
    }

    /// Sets a thread key, or does nothing while uninitialized.
    pub fn set_thread_key_value(&mut self, identifier: String, value: bool)
        ensures
            !old(self).initialized() ==> *final(self) == *old(self),
            old(self).initialized() ==> final(self).initialized(),
            old(self).initialized() ==> final(self).host().state() == old(self).host().state().logged(
                HostCall::SetThreadKey(identifier@, value),
            ).with_thread_key(identifier@, value),
    {
        if let Some(table) = &mut self.table {
            table.set_thread_key_value(identifier, value);
        }
    }

    /// Reads a thread key, or answers `false` while uninitialized.
    pub fn get_thread_key(&self, identifier: String) -> (value: bool)
        ensures
            self.initialized() ==> value == self.host().state().thread_key_value(identifier@),
            !self.initialized() ==> value == false,
    {
        match &self.table {
            Some(table) => table.get_thread_key(identifier),
            None => false,
        }
    }

    /// Reads an integer slider, or answers `0` while uninitialized.
    pub fn get_i32_slider_value(&self, identifier: String) -> (value: i32)
        ensures
            self.initialized() ==> value == self.host().state().i32_slider_value(identifier@),
            !self.initialized() ==> value == 0,
    {
        match &self.table {
            Some(table) => table.get_i32_slider_value(identifier),
            None => 0,
        }
    }

    /// Reads a fractional slider as raw bits, or answers `0` (the bits of
    /// zero) while uninitialized.
    pub fn get_f32_slider_value(&self, identifier: String) -> (bits: u32)
        ensures
            self.initialized() ==> bits == self.host().state().f32_slider_value_bits(identifier@),
            !self.initialized() ==> bits == 0,
    {
        match &self.table {
            Some(table) => table.get_f32_slider_value(identifier),
            None => 0,
        }
    }

    /// Places the next widget on the active line, or does nothing while
    /// uninitialized.
    pub fn ui_set_next_item_same_line(&mut self, identifier: String)
        ensures
            !old(self).initialized() ==> *final(self) == *old(self),
            old(self).initialized() ==> final(self).initialized(),
            old(self).initialized() ==> final(self).host().state() == old(self).host().state().logged(
                HostCall::UiSetNextItemSameLine(identifier@),
            ),
    {
        if let Some(table) = &mut self.table {
            table.ui_set_next_item_same_line(identifier);
        }
    }

    /// Adds a custom-font label, or does nothing while uninitialized.
    pub fn ui_add_custom_font_label(
        &mut self,
        identifier: String,
        text: String,
        relative_font_path: String,
    )
        ensures
            !old(self).initialized() ==> *final(self) == *old(self),
            old(self).initialized() ==> final(self).initialized(),
            old(self).initialized() ==> final(self).host().state() == old(self).host().state().logged(
                HostCall::UiAddCustomFontLabel(identifier@, text@, relative_font_path@),
            ),
    {
        if let Some(table) = &mut self.table {
            table.ui_add_custom_font_label(identifier, text, relative_font_path);
        }
    }

    /// Removes a widget from the focused window, or does nothing while
    /// uninitialized.
    pub fn ui_remove_widget(&mut self, identifier: String)
        ensures
            !old(self).initialized() ==> *final(self) == *old(self),
            old(self).initialized() ==> final(self).initialized(),
            old(self).initialized() ==> final(self).host().state() == old(self).host().state().logged(
                HostCall::UiRemoveWidget(identifier@),
            ),
    {
        if let Some(table) = &mut self.table {
            table.ui_remove_widget(identifier);
        }
    }

    /// Removes every widget from the focused window, or does nothing while
    /// uninitialized.
    pub fn ui_remove_all_widgets(&mut self)
        ensures
            !old(self).initialized() ==> *final(self) == *old(self),
            old(self).initialized() ==> final(self).initialized(),
            old(self).initialized() ==> final(self).host().state() == old(self).host().state().logged(
                HostCall::UiRemoveAllWidgets,
            ),
    {
        if let Some(table) = &mut self.table {
            table.ui_remove_all_widgets();
        }
    }

    /// Adds an integer slider, or does nothing while uninitialized.
    pub fn ui_add_i32_slider(
        &mut self,
        identifier: String,
        text: String,
        min: i32,
        max: i32,
        rune_code: Option<String>,
    )
        ensures
            !old(self).initialized() ==> *final(self) == *old(self),
            old(self).initialized() ==> final(self).initialized(),
            old(self).initialized() ==> final(self).host().state() == old(self).host().state().logged(
                HostCall::UiAddI32Slider(identifier@, text@, min, max, view_of_option(rune_code)),
            ),
    {
        if let Some(table) = &mut self.table {
            table.ui_add_i32_slider(identifier, text, min, max, rune_code);
        }
    }

    /// Adds a fractional slider whose bounds are raw bits of the host's
    /// 32-bit floating-point values, or does nothing while uninitialized.
    pub fn ui_add_f32_slider(
        &mut self,
        identifier: String,
        text: String,
        min_bits: u32,
        max_bits: u32,
        rune_code: Option<String>,
    )
        ensures
            !old(self).initialized() ==> *final(self) == *old(self),
            old(self).initialized() ==> final(self).initialized(),
            old(self).initialized() ==> final(self).host().state() == old(self).host().state().logged(
                HostCall::UiAddF32Slider(identifier@, text@, min_bits, max_bits, view_of_option(rune_code)),
            ),
    {
        if let Some(table) = &mut self.table {
            table.ui_add_f32_slider(identifier, text, min_bits, max_bits, rune_code);
        }
    }

    /// Asks the licensing service whether the user pays for a product, or
    /// answers `false` while uninitialized.
    pub fn sellix_is_paying_for_product(&self, product_id: String, bearer_token: String) -> (paying:
        bool)
        ensures
            self.initialized() ==> paying == self.host().state().is_paying(
                product_id@,
                bearer_token@,
            ),
            !self.initialized() ==> paying == false,
    {
        match &self.table {
            Some(table) => table.sellix_is_paying_for_product(product_id, bearer_token),
            None => false,
        }
    }

    /// Asks the host's configuration for a serial, or answers `false` while
    /// uninitialized.
    pub fn config_has_serial(&self, serial: String) -> (present: bool)
        ensures
            self.initialized() ==> present == self.host().state().has_serial(serial@),
            !self.initialized() ==> present == false,
    {
        match &self.table {
            Some(table) => table.config_has_serial(serial),
            None => false,
        }
    }
}

} // verus!
