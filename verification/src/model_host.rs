//! A host implementation held entirely in process memory.
//!
//! [`ModelHost`] implements every capability of [`HostServices`] over plain
//! values: the call log, thread keys, slider values, readable memory,
//! entitlements and serials are ordinary vectors. It is proved to meet the
//! host contract exactly, which shows the contract is satisfiable, and it
//! gives tests a host whose every answer is chosen in advance. The builder
//! methods model the host-side world changing outside any capability call —
//! a user dragging a slider, memory being mapped, a licence being bought —
//! and therefore append nothing to the call log.

use vstd::prelude::*;

use crate::host::CallbackToken;
use crate::host::HostCall;
use crate::host::HostServices;
use crate::host::HostState;
use crate::host::ModuleHandle;
use crate::host::ProcessHandle;
use crate::host::value_or;
use crate::host::view_of_option;

verus! {

/// One recorded capability invocation, holding owned copies of the
/// arguments. Its view is the corresponding [`HostCall`].
pub enum CallRecord {
    /// See [`HostCall::Log`].
    Log(String),
    /// See [`HostCall::PxExecute`].
    PxExecute(String, bool, bool),
    /// See [`HostCall::Eject`].
    Eject(ProcessHandle, ModuleHandle),
    /// See [`HostCall::RuneExecute`].
    RuneExecute(String),
    /// See [`HostCall::UiAddWindow`].
    UiAddWindow(String),
    /// See [`HostCall::UiFocusWindow`].
    UiFocusWindow(String),
    /// See [`HostCall::UiAddLabel`].
    UiAddLabel(String, String, usize),
    /// See [`HostCall::UiAddButton`].
    UiAddButton(String, String, String, Option<CallbackToken>),
    /// See [`HostCall::UiAddSeparator`].
    UiAddSeparator(String),
    /// See [`HostCall::UiAddSpacing`].
    UiAddSpacing(String, u32, u32),
    /// See [`HostCall::CreateThreadKey`].
    CreateThreadKey(String),
    /// See [`HostCall::SetThreadKey`].
    SetThreadKey(String, bool),
    /// See [`HostCall::UiSetNextItemSameLine`].
    UiSetNextItemSameLine(String),
    /// See [`HostCall::UiAddCustomFontLabel`].
    UiAddCustomFontLabel(String, String, String),
    /// See [`HostCall::UiRemoveWidget`].
    UiRemoveWidget(String),
    /// See [`HostCall::UiRemoveAllWidgets`].
    UiRemoveAllWidgets,
    /// See [`HostCall::UiAddI32Slider`].
    UiAddI32Slider(String, String, i32, i32, Option<String>),
    /// See [`HostCall::UiAddF32Slider`].
    UiAddF32Slider(String, String, u32, u32, Option<String>),
}

impl CallRecord {
    /// The call this record stands for.
    pub open spec fn to_call(self) -> HostCall {
        match self {
            CallRecord::Log(message) => HostCall::Log(message@),
            CallRecord::PxExecute(code, party, main) => HostCall::PxExecute(code@, party, main),
            CallRecord::Eject(process, payload) => HostCall::Eject(process, payload),
            CallRecord::RuneExecute(source) => HostCall::RuneExecute(source@),
            CallRecord::UiAddWindow(name) => HostCall::UiAddWindow(name@),
            CallRecord::UiFocusWindow(name) => HostCall::UiFocusWindow(name@),
            CallRecord::UiAddLabel(id, text, font) => HostCall::UiAddLabel(id@, text@, font),
            CallRecord::UiAddButton(id, text, source, callback) => HostCall::UiAddButton(
                id@,
                text@,
                source@,
                callback,
            ),
            CallRecord::UiAddSeparator(id) => HostCall::UiAddSeparator(id@),
            CallRecord::UiAddSpacing(id, x, y) => HostCall::UiAddSpacing(id@, x, y),
            CallRecord::CreateThreadKey(name) => HostCall::CreateThreadKey(name@),
            CallRecord::SetThreadKey(name, value) => HostCall::SetThreadKey(name@, value),
            CallRecord::UiSetNextItemSameLine(id) => HostCall::UiSetNextItemSameLine(id@),
            CallRecord::UiAddCustomFontLabel(id, text, path) => HostCall::UiAddCustomFontLabel(
                id@,
                text@,
                path@,
            ),
            CallRecord::UiRemoveWidget(id) => HostCall::UiRemoveWidget(id@),
            CallRecord::UiRemoveAllWidgets => HostCall::UiRemoveAllWidgets,
            CallRecord::UiAddI32Slider(id, text, min, max, code) => HostCall::UiAddI32Slider(
                id@,
                text@,
                min,
                max,
                view_of_option(code),
            ),
            CallRecord::UiAddF32Slider(id, text, min, max, code) => HostCall::UiAddF32Slider(
                id@,
                text@,
                min,
                max,
                view_of_option(code),
            ),
        }
    }
}

/// The calls a sequence of records stands for.
pub open spec fn calls_of(records: Seq<CallRecord>) -> Seq<HostCall> {
    records.map_values(|record: CallRecord| record.to_call())
}

proof fn lemma_calls_of_push(records: Seq<CallRecord>, record: CallRecord)
    ensures
        calls_of(records.push(record)) == calls_of(records).push(record.to_call()),
{
    assert(calls_of(records.push(record)) =~= calls_of(records).push(record.to_call()));
}

/// The map a sequence of name-value entries stands for; a later entry for
/// the same name wins.
pub open spec fn entry_map<V>(entries: Seq<(String, V)>) -> Map<Seq<char>, V>
    decreases entries.len(),
{
    if entries.len() == 0 {
        Map::empty()
    } else {
        entry_map(entries.drop_last()).insert(entries.last().0@, entries.last().1)
    }
}

proof fn lemma_entry_map_push<V>(entries: Seq<(String, V)>, entry: (String, V))
    ensures
        entry_map(entries.push(entry)) == entry_map(entries).insert(entry.0@, entry.1),
{
    assert(entries.push(entry).drop_last() =~= entries);
}

/// The map a sequence of address-text entries stands for; a later entry for
/// the same address wins.
pub open spec fn memory_map(entries: Seq<(i64, String)>) -> Map<i64, Seq<char>>
    decreases entries.len(),
{
    if entries.len() == 0 {
        Map::empty()
    } else {
        memory_map(entries.drop_last()).insert(entries.last().0, entries.last().1@)
    }
}

proof fn lemma_memory_map_push(entries: Seq<(i64, String)>, entry: (i64, String))
    ensures
        memory_map(entries.push(entry)) == memory_map(entries).insert(entry.0, entry.1@),
{
    assert(entries.push(entry).drop_last() =~= entries);
}

/// The set of string pairs a sequence of entries stands for.
pub open spec fn pair_set(entries: Seq<(String, String)>) -> Set<(Seq<char>, Seq<char>)>
    decreases entries.len(),
{
    if entries.len() == 0 {
        Set::empty()
    } else {
        pair_set(entries.drop_last()).insert((entries.last().0@, entries.last().1@))
    }
}

proof fn lemma_pair_set_push(entries: Seq<(String, String)>, entry: (String, String))
    ensures
        pair_set(entries.push(entry)) == pair_set(entries).insert((entry.0@, entry.1@)),
{
    assert(entries.push(entry).drop_last() =~= entries);
}

/// The set of strings a sequence of entries stands for.
pub open spec fn string_set(entries: Seq<String>) -> Set<Seq<char>>
    decreases entries.len(),
{
    if entries.len() == 0 {
        Set::empty()
    } else {
        string_set(entries.drop_last()).insert(entries.last()@)
    }
}

proof fn lemma_string_set_push(entries: Seq<String>, entry: String)
    ensures
        string_set(entries.push(entry)) == string_set(entries).insert(entry@),
{
    assert(entries.push(entry).drop_last() =~= entries);
}

/// Finds the value the entries give a name, scanning from the newest entry
/// back, or hands back the default where no entry names it.
fn lookup_copy<V: Copy>(entries: &Vec<(String, V)>, name: &String, default: V) -> (value: V)
    ensures
        value == value_or(entry_map(entries@), name@, default),
{
    let ghost full = entries@;
    let mut index: usize = entries.len();
    proof {
        assert(full.take(index as int) =~= full);
    }
    while index > 0
        invariant
            index <= entries@.len(),
            value_or(entry_map(entries@), name@, default) == value_or(
                entry_map(entries@.take(index as int)),
                name@,
                default,
            ),
        decreases index,
    {
        index -= 1;
        proof {
            assert(entries@.take(index as int + 1).drop_last() =~= entries@.take(index as int));
            assert(entries@.take(index as int + 1).last() == entries@[index as int]);
        }
        if entries[index].0 == *name {
            return entries[index].1;
        }
    }
    default
}

/// Finds the text the entries give an address, scanning from the newest
/// entry back, or hands back the empty string where no entry maps it.
fn lookup_text(entries: &Vec<(i64, String)>, address: i64) -> (text: String)
    ensures
        text@ == value_or(memory_map(entries@), address, Seq::<char>::empty()),
{
    let ghost full = entries@;
    let mut index: usize = entries.len();
    proof {
        assert(full.take(index as int) =~= full);
    }
    while index > 0
        invariant
            index <= entries@.len(),
            value_or(memory_map(entries@), address, Seq::<char>::empty()) == value_or(
                memory_map(entries@.take(index as int)),
                address,
                Seq::<char>::empty(),
            ),
        decreases index,
    {
        index -= 1;
        proof {
            assert(entries@.take(index as int + 1).drop_last() =~= entries@.take(index as int));
            assert(entries@.take(index as int + 1).last() == entries@[index as int]);
        }
        if entries[index].0 == address {
            return entries[index].1.clone();
        }
    }
    String::new()
}

/// Whether the entries hold this pair of strings.
fn contains_pair(entries: &Vec<(String, String)>, left: &String, right: &String) -> (present: bool)
    ensures
        present == pair_set(entries@).contains((left@, right@)),
{
    let ghost full = entries@;
    let mut index: usize = entries.len();
    proof {
        assert(full.take(index as int) =~= full);
    }
    while index > 0
        invariant
            index <= entries@.len(),
            pair_set(entries@).contains((left@, right@)) == pair_set(
                entries@.take(index as int),
            ).contains((left@, right@)),
        decreases index,
    {
        index -= 1;
        proof {
            assert(entries@.take(index as int + 1).drop_last() =~= entries@.take(index as int));
            assert(entries@.take(index as int + 1).last() == entries@[index as int]);
        }
        if entries[index].0 == *left && entries[index].1 == *right {
            return true;
        }
    }
    false
}

/// Whether the entries hold this string.
fn contains_string(entries: &Vec<String>, wanted: &String) -> (present: bool)
    ensures
        present == string_set(entries@).contains(wanted@),
{
    let ghost full = entries@;
    let mut index: usize = entries.len();
    proof {
        assert(full.take(index as int) =~= full);
    }
    while index > 0
        invariant
            index <= entries@.len(),
            string_set(entries@).contains(wanted@) == string_set(
                entries@.take(index as int),
            ).contains(wanted@),
        decreases index,
    {
        index -= 1;
        proof {
            assert(entries@.take(index as int + 1).drop_last() =~= entries@.take(index as int));
            assert(entries@.take(index as int + 1).last() == entries@[index as int]);
        }
        if entries[index] == *wanted {
            return true;
        }
    }
    false
}

/// A host whose state is plain process memory. Every capability is verified
/// against the host contract; the builders below shape the world the
/// capabilities then answer from.
pub struct ModelHost {
    records: Vec<CallRecord>,
    thread_keys: Vec<(String, bool)>,
    i32_sliders: Vec<(String, i32)>,
    f32_sliders: Vec<(String, u32)>,
    delta_time_bits: u32,
    memory: Vec<(i64, String)>,
    entitlements: Vec<(String, String)>,
    serials: Vec<String>,
    ejections: Vec<(ProcessHandle, ModuleHandle)>,
}

impl ModelHost {
    /// A host that has done nothing and knows nothing.
    pub fn new() -> (host: ModelHost)
        ensures
            host.state() == HostState::initial(),
    {
        let host = ModelHost {
            records: Vec::new(),
            thread_keys: Vec::new(),
            i32_sliders: Vec::new(),
            f32_sliders: Vec::new(),
            delta_time_bits: 0,
            memory: Vec::new(),
            entitlements: Vec::new(),
            serials: Vec::new(),
            ejections: Vec::new(),
        };
        proof {
            assert(calls_of(host.records@) =~= Seq::<HostCall>::empty());
            assert(host.state() =~= HostState::initial());
        }
        host
    }

    /// Models the user moving an integer slider: no capability is called, so
    /// the call log does not grow.
    pub fn set_i32_slider(&mut self, identifier: String, value: i32)
        ensures
            final(self).state() == (HostState {
                i32_sliders: old(self).state().i32_sliders.insert(identifier@, value),
                ..old(self).state()
            }),
    {
        proof {
            lemma_entry_map_push(self.i32_sliders@, (identifier, value));
        }
        self.i32_sliders.push((identifier, value));
    }

    /// Models the user moving a fractional slider, given as raw bits.
    pub fn set_f32_slider_bits(&mut self, identifier: String, bits: u32)
        ensures
            final(self).state() == (HostState {
                f32_sliders: old(self).state().f32_sliders.insert(identifier@, bits),
                ..old(self).state()
            }),
    {
        proof {
            lemma_entry_map_push(self.f32_sliders@, (identifier, bits));
        }
        self.f32_sliders.push((identifier, bits));
    }

    /// Models the host's delta time changing, given as raw bits.
    pub fn set_delta_time_bits(&mut self, bits: u32)
        ensures
            final(self).state() == (HostState { delta_time_bits: bits, ..old(self).state() }),
    {
        self.delta_time_bits = bits;
    }

    /// Models text becoming readable at an address of the host process.
    pub fn set_memory_text(&mut self, address: i64, text: String)
        ensures
            final(self).state() == (HostState {
                memory: old(self).state().memory.insert(address, text@),
                ..old(self).state()
            }),
    {
        proof {
            lemma_memory_map_push(self.memory@, (address, text));
        }
        self.memory.push((address, text));
    }

    /// Models the licensing service accepting a product and bearer token.
    pub fn add_entitlement(&mut self, product_id: String, bearer_token: String)
        ensures
            final(self).state() == (HostState {
                entitlements: old(self).state().entitlements.insert((product_id@, bearer_token@)),
                ..old(self).state()
            }),
    {
        proof {
            lemma_pair_set_push(self.entitlements@, (product_id, bearer_token));
        }
        self.entitlements.push((product_id, bearer_token));
    }

    /// Models a serial appearing in the host's configuration.
    pub fn add_serial(&mut self, serial: String)
        ensures
            final(self).state() == (HostState {
                serials: old(self).state().serials.insert(serial@),
                ..old(self).state()
            }),
    {
        proof {
            lemma_string_set_push(self.serials@, serial);
        }
        self.serials.push(serial);
    }

    /// How many acting capability calls this host has received.
    pub fn call_count(&self) -> (count: usize)
        ensures
            count == self.state().calls.len(),
    {
        self.records.len()
    }

    /// How many times this host was asked to eject the payload.
    pub fn ejection_count(&self) -> (count: usize)
        ensures
            count == self.state().ejections.len(),
    {
        self.ejections.len()
    }

    /// The handles of one recorded ejection request.
    pub fn ejection_at(&self, index: usize) -> (handles: (ProcessHandle, ModuleHandle))
        requires
            index < self.state().ejections.len(),
        ensures
            handles == self.state().ejections[index as int],
    {
        self.ejections[index]
    }
}

impl HostServices for ModelHost {
    closed spec fn state(&self) -> HostState {
        HostState {
            calls: calls_of(self.records@),
            thread_keys: entry_map(self.thread_keys@),
            i32_sliders: entry_map(self.i32_sliders@),
            f32_sliders: entry_map(self.f32_sliders@),
            delta_time_bits: self.delta_time_bits,
            memory: memory_map(self.memory@),
            entitlements: pair_set(self.entitlements@),
            serials: string_set(self.serials@),
            ejections: self.ejections@,
        }
    }

    fn dynamic_log(&mut self, message: &str) {
        let record = CallRecord::Log(message.to_owned());
        proof {
            lemma_calls_of_push(self.records@, record);
        }
        self.records.push(record);
    }

    fn memory_read_string(&self, address: i64) -> (text: String) {
        lookup_text(&self.memory, address)
    }

    fn pxscript_execute(&mut self, code: String, send_to_party: bool, use_main_thread: bool) {
        let record = CallRecord::PxExecute(code, send_to_party, use_main_thread);
        proof {
            lemma_calls_of_push(self.records@, record);
        }
        self.records.push(record);
    }

    fn dynamic_get_delta_time(&self) -> (bits: u32) {
        self.delta_time_bits
    }

    fn dynamic_eject_payload(&mut self, process: ProcessHandle, payload: ModuleHandle) {
        let record = CallRecord::Eject(process, payload);
        proof {
            lemma_calls_of_push(self.records@, record);
        }
        self.records.push(record);
        self.ejections.push((process, payload));
    }

    fn rune_vm_execute(&mut self, source: String) {
        let record = CallRecord::RuneExecute(source);
        proof {
            lemma_calls_of_push(self.records@, record);
        }
        self.records.push(record);
    }

    fn ui_add_window(&mut self, name: String) {
        let record = CallRecord::UiAddWindow(name);
        proof {
            lemma_calls_of_push(self.records@, record);
        }
        self.records.push(record);
    }

    fn ui_focus_window(&mut self, name: String) {
        let record = CallRecord::UiFocusWindow(name);
        proof {
            lemma_calls_of_push(self.records@, record);
        }
        self.records.push(record);
    }

    fn ui_add_label(&mut self, identifier: String, text: String, font_id: usize) {
        let record = CallRecord::UiAddLabel(identifier, text, font_id);
        proof {
            lemma_calls_of_push(self.records@, record);
        }
        self.records.push(record);
    }

    fn ui_add_button(
        &mut self,
        identifier: String,
        text: String,
        source: String,
        callback: Option<CallbackToken>,
    ) {
        let record = CallRecord::UiAddButton(identifier, text, source, callback);
        proof {
            lemma_calls_of_push(self.records@, record);
        }
        self.records.push(record);
    }

    fn ui_add_separator(&mut self, identifier: String) {
        let record = CallRecord::UiAddSeparator(identifier);
        proof {
            lemma_calls_of_push(self.records@, record);
        }
        self.records.push(record);
    }

    fn ui_add_spacing(&mut self, identifier: String, x_bits: u32, y_bits: u32) {
        let record = CallRecord::UiAddSpacing(identifier, x_bits, y_bits);
        proof {
            lemma_calls_of_push(self.records@, record);
        }
        self.records.push(record);
    }

    fn create_thread_key(&mut self, identifier: String) {
        let record = CallRecord::CreateThreadKey(identifier.clone());
        proof {
            lemma_calls_of_push(self.records@, record);
            lemma_entry_map_push(self.thread_keys@, (identifier, false));
        }
        self.records.push(record);
        self.thread_keys.push((identifier, false));
    }

    fn set_thread_key_value(&mut self, identifier: String, value: bool) {
        let record = CallRecord::SetThreadKey(identifier.clone(), value);
        proof {
            lemma_calls_of_push(self.records@, record);
            lemma_entry_map_push(self.thread_keys@, (identifier, value));
        }
        self.records.push(record);
        self.thread_keys.push((identifier, value));
    }

    fn get_thread_key(&self, identifier: String) -> (value: bool) {
        lookup_copy(&self.thread_keys, &identifier, false)
    }

    fn get_i32_slider_value(&self, identifier: String) -> (value: i32) {
        lookup_copy(&self.i32_sliders, &identifier, 0)
    }

    fn get_f32_slider_value(&self, identifier: String) -> (bits: u32) {
        lookup_copy(&self.f32_sliders, &identifier, 0)
    }

    fn ui_set_next_item_same_line(&mut self, identifier: String) {
        let record = CallRecord::UiSetNextItemSameLine(identifier);
        proof {
            lemma_calls_of_push(self.records@, record);
        }
        self.records.push(record);
    }

    fn ui_add_custom_font_label(
        &mut self,
        identifier: String,
        text: String,
        relative_font_path: String,
    ) {
        let record = CallRecord::UiAddCustomFontLabel(identifier, text, relative_font_path);
        proof {
            lemma_calls_of_push(self.records@, record);
        }
        self.records.push(record);
    }

    fn ui_remove_widget(&mut self, identifier: String) {
        let record = CallRecord::UiRemoveWidget(identifier);
        proof {
            lemma_calls_of_push(self.records@, record);
        }
        self.records.push(record);
    }

    fn ui_remove_all_widgets(&mut self) {
        let record = CallRecord::UiRemoveAllWidgets;
        proof {
            lemma_calls_of_push(self.records@, record);
        }
        self.records.push(record);
    }

    fn ui_add_i32_slider(
        &mut self,
        identifier: String,
        text: String,
        min: i32,
        max: i32,
        rune_code: Option<String>,
    ) {
        let record = CallRecord::UiAddI32Slider(identifier, text, min, max, rune_code);
        proof {
            lemma_calls_of_push(self.records@, record);
        }
        self.records.push(record);
    }

    fn ui_add_f32_slider(
        &mut self,
        identifier: String,
        text: String,
        min_bits: u32,
        max_bits: u32,
        rune_code: Option<String>,
    ) {
        let record = CallRecord::UiAddF32Slider(identifier, text, min_bits, max_bits, rune_code);
        proof {
            lemma_calls_of_push(self.records@, record);
        }
        self.records.push(record);
    }

    fn sellix_is_paying_for_product(&self, product_id: String, bearer_token: String) -> (paying:
        bool) {
        contains_pair(&self.entitlements, &product_id, &bearer_token)
    }

    fn config_has_serial(&self, serial: String) -> (present: bool) {
        contains_string(&self.serials, &serial)
    }
}

} // verus!
