//! Global shortcuts: what may be registered, and when.
//!
//! The plugin that talks to the operating system stays outside: it parses,
//! looks up, registers and unregisters as it is told, and reports what came of
//! it.

use crate::text;
use vstd::prelude::*;

verus! {

/// A shortcut and what it is for.
#[derive(Debug, Clone)]
pub struct ShortcutBinding {
    pub id: String,
    pub current_binding: String,
}

// ---------------------------------------------------------------------------
// Validation
// ---------------------------------------------------------------------------

/// Keys that only modify another key.
pub open spec fn modifier(part: Seq<char>) -> bool {
    ||| part == "ctrl"@
    ||| part == "control"@
    ||| part == "shift"@
    ||| part == "alt"@
    ||| part == "option"@
    ||| part == "meta"@
    ||| part == "command"@
    ||| part == "cmd"@
    ||| part == "super"@
    ||| part == "win"@
    ||| part == "windows"@
}

/// The key that no global shortcut can hold.
pub open spec fn function_key(part: Seq<char>) -> bool {
    part == "fn"@ || part == "function"@
}

/// A key that a shortcut can be about: there is one, and it modifies no other.
pub open spec fn main_key(part: Seq<char>) -> bool {
    part.len() > 0 && !modifier(part)
}

/// What is wrong with a shortcut, where something is; `parts` are its keys,
/// trimmed and in lower case.
pub open spec fn shortcut_fault(empty: bool, parts: Seq<Seq<char>>) -> Option<Seq<char>> {
    if empty {
        Some("Shortcut cannot be empty"@)
    } else if exists|i: int| 0 <= i < parts.len() && function_key(#[trigger] parts[i]) {
        Some("The 'fn' key is not supported by Tauri global shortcuts"@)
    } else if exists|i: int| 0 <= i < parts.len() && main_key(#[trigger] parts[i]) {
        None
    } else {
        Some(
            "Tauri shortcuts must include a main key (letter, number, F-key, etc.) in addition to modifiers"@,
        )
    }
}

/// The keys of a shortcut, trimmed and in lower case.
pub open spec fn keys_of(raw: Seq<char>) -> Seq<Seq<char>> {
    text::pieces(raw, '+').map_values(|p: Seq<char>| text::lowercase_text(text::trimmed(p)))
}

fn is_modifier(part: &str) -> (r: bool)
    ensures
        r == modifier(part@),
{
    text::same_text(part, "ctrl") || text::same_text(part, "control") || text::same_text(
        part,
        "shift",
    ) || text::same_text(part, "alt") || text::same_text(part, "option") || text::same_text(
        part,
        "meta",
    ) || text::same_text(part, "command") || text::same_text(part, "cmd") || text::same_text(
        part,
        "super",
    ) || text::same_text(part, "win") || text::same_text(part, "windows")
}

/// Validate the keys of a shortcut, trimmed and in lower case: at least one of
/// them must be a main key, and none the fn key. What a trailing `+` leaves is no
/// key at all. `empty` says that there was nothing to split.
pub fn validate_keys(empty: bool, parts: &Vec<String>) -> (r: Result<(), String>)
    ensures
        match r {
            Ok(_) => shortcut_fault(empty, text::texts(parts@)) is None,
            Err(e) => shortcut_fault(empty, text::texts(parts@)) == Some(e@),
        },
{
    if empty {
        return Err("Shortcut cannot be empty".to_owned());
    }
    let ghost keys = text::texts(parts@);
    let mut i: usize = 0;
    while i < parts.len()
        invariant
            i <= parts.len(),
            !empty,
            keys == text::texts(parts@),
            forall|j: int| 0 <= j < i ==> !function_key(#[trigger] keys[j]),
        decreases parts.len() - i,
    {
        let part = parts[i].as_str();
        assert(part@ == keys[i as int]);
        if text::same_text(part, "fn") || text::same_text(part, "function") {
            assert(function_key(keys[i as int]));
            return Err("The 'fn' key is not supported by Tauri global shortcuts".to_owned());
        }
        i = i + 1;
    }
    let mut k: usize = 0;
    while k < parts.len()
        invariant
            k <= parts.len(),
            !empty,
            keys == text::texts(parts@),
            forall|j: int| 0 <= j < keys.len() ==> !function_key(#[trigger] keys[j]),
            forall|j: int| 0 <= j < k ==> !main_key(#[trigger] keys[j]),
        decreases parts.len() - k,
    {
        let part = parts[k].as_str();
        assert(part@ == keys[k as int]);
        if !part.is_empty() && !is_modifier(part) {
            assert(main_key(keys[k as int]));
            return Ok(());
        }
        k = k + 1;
    }
    Err(
        "Tauri shortcuts must include a main key (letter, number, F-key, etc.) in addition to modifiers".to_owned(),
    )
}

/// Validate a shortcut string. A global shortcut needs at least one non-modifier
/// key and cannot hold the fn key.
pub fn validate_shortcut(raw: &str) -> (r: Result<(), String>)
    ensures
        match r {
            Ok(_) => shortcut_fault(text::trimmed(raw@).len() == 0, keys_of(raw@)) is None,
            Err(e) => shortcut_fault(text::trimmed(raw@).len() == 0, keys_of(raw@)) == Some(e@),
        },
{
    let empty = text::trim(raw).as_str().is_empty();
    let pieces: Vec<String> = text::split(raw, '+');
    let mut parts: Vec<String> = Vec::new();
    let mut i: usize = 0;
    while i < pieces.len()
        invariant
            i <= pieces.len(),
            text::texts(pieces@) == text::pieces(raw@, '+'),
            text::texts(parts@) =~= keys_of(raw@).take(i as int),
        decreases pieces.len() - i,
    {
        assert(pieces[i as int]@ == text::texts(pieces@)[i as int]);
        let part = text::lowercase(text::trim(pieces[i].as_str()).as_str());
        assert(part@ == keys_of(raw@)[i as int]);
        let ghost earlier = text::texts(parts@);
        parts.push(part);
        assert(text::texts(parts@) =~= earlier.push(part@));
        i = i + 1;
    }
    assert(text::texts(parts@) =~= keys_of(raw@));
    validate_keys(empty, &parts)
}

/// A shortcut of modifiers alone is never valid, whatever stands empty between
/// and behind them.
pub proof fn law_modifiers_alone_are_no_shortcut(empty: bool, parts: Seq<Seq<char>>)
    requires
        forall|i: int|
            0 <= i < parts.len() ==> modifier(#[trigger] parts[i]) || parts[i].len() == 0,
    ensures
        shortcut_fault(empty, parts) is Some,
{
}

// ---------------------------------------------------------------------------
// Registration
// ---------------------------------------------------------------------------

/// How a registration goes on.
#[derive(Debug)]
pub enum RegisterStep {
    /// Parse the shortcut; continue with [`register_parsed`].
    Parse,
    /// Look up whether it is registered; continue with [`register_checked`].
    Check,
    /// Register it; continue with [`register_finished`].
    Register,
    /// Refused, and why.
    Refused(String),
}

/// Register a shortcut: only a valid one is parsed at all.
pub fn register_shortcut(binding: &ShortcutBinding) -> (r: RegisterStep)
    ensures
        ({
            let raw = binding.current_binding@;
            let fault = shortcut_fault(text::trimmed(raw).len() == 0, keys_of(raw));
            match r {
                RegisterStep::Parse => fault is None,
                RegisterStep::Refused(e) => fault == Some(e@),
                _ => false,
            }
        }),
{
    match validate_shortcut(binding.current_binding.as_str()) {
        Ok(_) => RegisterStep::Parse,
        Err(e) => RegisterStep::Refused(e),
    }
}

/// The shortcut was parsed, or could not be.
pub fn register_parsed(binding: &ShortcutBinding, parsed: Result<(), String>) -> (r: RegisterStep)
    ensures
        match parsed {
            Ok(_) => r == RegisterStep::Check,
            Err(e) => r matches RegisterStep::Refused(m) && m@ == "Failed to parse shortcut '"@
                + binding.current_binding@ + "': "@ + e@,
        },
{
    match parsed {
        Ok(_) => RegisterStep::Check,
        Err(e) => RegisterStep::Refused(
            "Failed to parse shortcut '".to_owned().concat(binding.current_binding.as_str()).concat(
                "': ",
            ).concat(e.as_str()),
        ),
    }
}

/// Whether the shortcut is registered is known. A duplicate registration would
/// silently shadow the other one.
pub fn register_checked(binding: &ShortcutBinding, registered: bool) -> (r: RegisterStep)
    ensures
        if registered {
            r matches RegisterStep::Refused(m) && m@ == "Shortcut '"@ + binding.current_binding@
                + "' is already in use"@
        } else {
            r == RegisterStep::Register
        },
{
    if registered {
        RegisterStep::Refused(
            "Shortcut '".to_owned().concat(binding.current_binding.as_str()).concat(
                "' is already in use",
            ),
        )
    } else {
        RegisterStep::Register
    }
}

/// The shortcut was registered, or could not be.
pub fn register_finished(binding: &ShortcutBinding, outcome: Result<(), String>) -> (r: Result<
    (),
    String,
>)
    ensures
        r is Ok <==> outcome is Ok,
        outcome matches Err(e) ==> r->Err_0@ == "Couldn't register shortcut '"@
            + binding.current_binding@ + "': "@ + e@,
{
    match outcome {
        Ok(_) => Ok(()),
        Err(e) => Err(
            "Couldn't register shortcut '".to_owned().concat(
                binding.current_binding.as_str(),
            ).concat("': ").concat(e.as_str()),
        ),
    }
}

/// What came of unregistering a shortcut: it is parsed first, and `outcome` is
/// what the plugin reported, where it was asked.
pub fn unregister_shortcut(
    binding: &ShortcutBinding,
    parsed: Result<(), String>,
    outcome: Result<(), String>,
) -> (r: Result<(), String>)
    ensures
        match parsed {
            Err(e) => r is Err && r->Err_0@ == "Failed to parse shortcut '"@
                + binding.current_binding@ + "' for unregistration: "@ + e@,
            Ok(_) => {
                &&& r is Ok <==> outcome is Ok
                &&& outcome matches Err(e) ==> r->Err_0@ == "Failed to unregister shortcut '"@
                    + binding.current_binding@ + "': "@ + e@
            },
        },
{
    if let Err(e) = parsed {
        return Err(
            "Failed to parse shortcut '".to_owned().concat(binding.current_binding.as_str()).concat(
                "' for unregistration: ",
            ).concat(e.as_str()),
        );
    }
    match outcome {
        Ok(_) => Ok(()),
        Err(e) => Err(
            "Failed to unregister shortcut '".to_owned().concat(
                binding.current_binding.as_str(),
            ).concat("': ").concat(e.as_str()),
        ),
    }
}

// ---------------------------------------------------------------------------
// The cancel shortcut
// ---------------------------------------------------------------------------

/// What brings the cancel binding in line with what is wanted.
#[derive(Debug, Clone, Copy, PartialEq, Eq, Structural)]
pub enum Reconcile {
    Nothing,
    Register,
    Unregister,
}

/// What brings the cancel binding in line: nothing where there is no binding or
/// it does not parse.
pub open spec fn reconciled(wanted: bool, usable: bool, registered: bool) -> Reconcile {
    if !usable || wanted == registered {
        Reconcile::Nothing
    } else if wanted {
        Reconcile::Register
    } else {
        Reconcile::Unregister
    }
}

/// Whether the cancel binding *should* be registered right now.
///
/// Registration and unregistration are requested from different threads, so the
/// two requests have no order relative to each other. Rather than try to impose
/// one, both sides record the intent here and ask for a reconcile; whichever
/// reconcile runs last reads the latest intent and converges on it.
#[derive(Debug)]
pub struct CancelShortcut {
    /// Dynamic registration is unstable there, so the cancel shortcut is off.
    pub linux: bool,
    pub wanted: bool,
}

impl CancelShortcut {
    /// Nobody wants the cancel shortcut yet.
    pub fn new(linux: bool) -> (r: Self)
        ensures
            r == (CancelShortcut { linux, wanted: false }),
    {
        CancelShortcut { linux, wanted: false }
    }

    /// Register the cancel shortcut (called when recording starts). Returns
    /// whether to reconcile.
    pub fn register_cancel_shortcut(&mut self) -> (r: bool)
        ensures
            r == !old(self).linux,
            final(self).linux == old(self).linux,
            final(self).wanted == (r || old(self).wanted),
    {
        if self.linux {
            return false;
        }
        self.wanted = true;
        true
    }

    /// Unregister the cancel shortcut (called when recording stops). Returns
    /// whether to reconcile.
    pub fn unregister_cancel_shortcut(&mut self) -> (r: bool)
        ensures
            r == !old(self).linux,
            final(self).linux == old(self).linux,
            final(self).wanted == (!r && old(self).wanted),
    {
        if self.linux {
            return false;
        }
        self.wanted = false;
        true
    }

    /// Bring the cancel binding in line with what is wanted. It goes by what is
    /// actually registered, so a duplicate reconcile does nothing rather than
    /// fail as already in use.
    pub fn reconcile_cancel_shortcut(&self, has_binding: bool, parses: bool, registered: bool) -> (r:
        Reconcile)
        ensures
            r == reconciled(self.wanted, has_binding && parses, registered),
    {
        if !has_binding || !parses {
            return Reconcile::Nothing;
        }
        if self.wanted && !registered {
            Reconcile::Register
        } else if !self.wanted && registered {
            Reconcile::Unregister
        } else {
            Reconcile::Nothing
        }
    }
}

/// Whether the binding is registered once an action went through.
pub open spec fn registered_after(registered: bool, action: Reconcile) -> bool {
    match action {
        Reconcile::Nothing => registered,
        Reconcile::Register => true,
        Reconcile::Unregister => false,
    }
}

/// What happens to the cancel shortcut.
pub enum CancelEvent {
    /// Somebody wants it, or does not any more.
    Want(bool),
    /// A reconcile runs, and what it asks for goes through.
    Reconcile,
}

/// What is wanted and what is registered after a list of events.
pub open spec fn cancel_after(events: Seq<CancelEvent>) -> (bool, bool)
    decreases events.len(),
{
    if events.len() == 0 {
        (false, false)
    } else {
        let (wanted, registered) = cancel_after(events.drop_last());
        match events.last() {
            CancelEvent::Want(now) => (now, registered),
            CancelEvent::Reconcile => (
                wanted,
                registered_after(registered, reconciled(wanted, true, registered)),
            ),
        }
    }
}

/// However requests and reconciles interleave, the last reconcile converges on
/// the latest intent; a further one does nothing.
pub proof fn law_the_last_reconcile_converges(events: Seq<CancelEvent>)
    requires
        events.len() > 0,
        events.last() is Reconcile,
    ensures
        cancel_after(events).0 == cancel_after(events).1,
        cancel_after(events).0 == cancel_after(events.drop_last()).0,
        reconciled(cancel_after(events).0, true, cancel_after(events).1) == Reconcile::Nothing,
{
}

// ---------------------------------------------------------------------------
// Startup
// ---------------------------------------------------------------------------

/// A binding under the key it is looked up by.
#[derive(Debug, Clone)]
pub struct BindingEntry {
    pub key: String,
    pub binding: ShortcutBinding,
}

/// A binding by its texts.
pub struct BindingView {
    pub id: Seq<char>,
    pub current: Seq<char>,
}

impl ShortcutBinding {
    /// The binding by its texts.
    pub open spec fn view(&self) -> BindingView {
        BindingView { id: self.id@, current: self.current_binding@ }
    }

    fn copy(&self) -> (r: Self)
        ensures
            r@ == self@,
    {
        ShortcutBinding {
            id: self.id.clone(),
            current_binding: self.current_binding.clone(),
        }
    }
}

/// The first binding under `key`.
pub open spec fn looked_up(entries: Seq<BindingEntry>, key: Seq<char>) -> Option<BindingView>
    decreases entries.len(),
{
    if entries.len() == 0 {
        None
    } else if entries[0].key@ == key {
        Some(entries[0].binding@)
    } else {
        looked_up(entries.drop_first(), key)
    }
}

/// Whether a shortcut is left out at startup: the cancel shortcut is registered
/// dynamically, and the secondary one only where some feature needs it.
pub open spec fn left_out(key: Seq<char>, secondary: bool) -> bool {
    key == "cancel"@ || (key == "transcribe_with_post_process"@ && !secondary)
}

/// Whether no key occurs twice: the entries are those of a map.
pub open spec fn distinct_keys(entries: Seq<BindingEntry>) -> bool {
    forall|i: int, j: int|
        0 <= i < j < entries.len() ==> (#[trigger] entries[i]).key@ != (
        #[trigger] entries[j]).key@
}

/// Whether a shortcut under `key` is to be registered at startup.
pub open spec fn registers(defaults: Seq<BindingEntry>, key: Seq<char>, secondary: bool) -> bool {
    !left_out(key, secondary) && exists|i: int|
        0 <= i < defaults.len() && (#[trigger] defaults[i]).key@ == key
}

/// The keys of the bindings that are registered at startup, in the same order.
pub open spec fn startup_keys(defaults: Seq<BindingEntry>, secondary: bool) -> Seq<Seq<char>>
    decreases defaults.len(),
{
    if defaults.len() == 0 {
        Seq::empty()
    } else {
        let earlier = startup_keys(defaults.drop_last(), secondary);
        if left_out(defaults.last().key@, secondary) {
            earlier
        } else {
            earlier.push(defaults.last().key@)
        }
    }
}

/// The bindings to register at startup: the defaults, with the user's
/// customizations applied.
pub open spec fn startup_bindings(
    defaults: Seq<BindingEntry>,
    user: Seq<BindingEntry>,
    secondary: bool,
) -> Seq<BindingView>
    decreases defaults.len(),
{
    if defaults.len() == 0 {
        Seq::empty()
    } else {
        let earlier = startup_bindings(defaults.drop_last(), user, secondary);
        let entry = defaults.last();
        if left_out(entry.key@, secondary) {
            earlier
        } else {
            match looked_up(user, entry.key@) {
                Some(binding) => earlier.push(binding),
                None => earlier.push(entry.binding@),
            }
        }
    }
}

fn look_up(entries: &Vec<BindingEntry>, key: &str) -> (r: Option<ShortcutBinding>)
    ensures
        match r {
            Some(binding) => looked_up(entries@, key@) == Some(binding@),
            None => looked_up(entries@, key@) is None,
        },
{
    let mut i: usize = 0;
    assert(entries@.skip(0) =~= entries@);
    while i < entries.len()
        invariant
            i <= entries.len(),
            looked_up(entries@, key@) == looked_up(entries@.skip(i as int), key@),
        decreases entries.len() - i,
    {
        assert(entries@.skip(i as int).drop_first() =~= entries@.skip(i + 1));
        if text::same_text(entries[i].key.as_str(), key) {
            return Some(entries[i].binding.copy());
        }
        i = i + 1;
    }
    None
}

/// The bindings by their texts.
pub open spec fn binding_views(bindings: Seq<ShortcutBinding>) -> Seq<BindingView> {
    bindings.map_values(|b: ShortcutBinding| b@)
}

/// The shortcuts to register at startup.
pub fn init_shortcuts(
    defaults: &Vec<BindingEntry>,
    user: &Vec<BindingEntry>,
    secondary: bool,
) -> (r: Vec<ShortcutBinding>)
    ensures
        binding_views(r@) == startup_bindings(defaults@, user@, secondary),
{
    let mut out: Vec<ShortcutBinding> = Vec::new();
    let mut i: usize = 0;
    assert(binding_views(out@) =~= startup_bindings(defaults@.take(0), user@, secondary));
    while i < defaults.len()
        invariant
            i <= defaults.len(),
            binding_views(out@) == startup_bindings(defaults@.take(i as int), user@, secondary),
        decreases defaults.len() - i,
    {
        let entry = &defaults[i];
        let key = entry.key.as_str();
        let ghost earlier = binding_views(out@);
        assert(defaults@.take(i + 1).drop_last() =~= defaults@.take(i as int));
        assert(defaults@.take(i + 1).last() == defaults@[i as int]);
        if !(text::same_text(key, "cancel") || (text::same_text(key, "transcribe_with_post_process")
            && !secondary)) {
            let binding = match look_up(user, key) {
                Some(binding) => binding,
                None => entry.binding.copy(),
            };
            out.push(binding);
            assert(binding_views(out@) =~= earlier.push(binding@));
        }
        i = i + 1;
    }
    assert(defaults@.take(defaults@.len() as int) =~= defaults@);
    out
}

proof fn lemma_looked_up(entries: Seq<BindingEntry>, i: int)
    requires
        distinct_keys(entries),
        0 <= i < entries.len(),
    ensures
        looked_up(entries, entries[i].key@) == Some(entries[i].binding@),
    decreases entries.len(),
{
    if i > 0 {
        let rest = entries.drop_first();
        assert forall|a: int, b: int| 0 <= a < b < rest.len() implies (#[trigger] rest[a]).key@ != (
        #[trigger] rest[b]).key@ by {
            assert(rest[a] == entries[a + 1] && rest[b] == entries[b + 1]);
        }
        assert(rest[i - 1] == entries[i]);
        lemma_looked_up(rest, i - 1);
    }
}

proof fn lemma_startup(
    defaults: Seq<BindingEntry>,
    user: Seq<BindingEntry>,
    secondary: bool,
)
    requires
        distinct_keys(defaults),
    ensures
        ({
            let keys = startup_keys(defaults, secondary);
            let bindings = startup_bindings(defaults, user, secondary);
            &&& keys.len() == bindings.len()
            &&& keys.no_duplicates()
            &&& forall|key: Seq<char>| #[trigger] keys.contains(key) <==> registers(
                defaults,
                key,
                secondary,
            )
            &&& forall|k: int|
                0 <= k < keys.len() ==> (#[trigger] bindings[k]) == (match looked_up(
                    user,
                    keys[k],
                ) {
                    Some(binding) => binding,
                    None => looked_up(defaults, keys[k])->0,
                })
        }),
    decreases defaults.len(),
{
    let keys = startup_keys(defaults, secondary);
    let bindings = startup_bindings(defaults, user, secondary);
    if defaults.len() > 0 {
        let before = defaults.drop_last();
        let last = defaults.last();
        let earlier = startup_keys(before, secondary);
        assert(distinct_keys(before)) by {
            assert forall|a: int, b: int| 0 <= a < b < before.len() implies (
            #[trigger] before[a]).key@ != (#[trigger] before[b]).key@ by {
                assert(before[a] == defaults[a] && before[b] == defaults[b]);
            }
        }
        lemma_startup(before, user, secondary);
        assert(!registers(before, last.key@, secondary)) by {
            assert forall|i: int| 0 <= i < before.len() implies (#[trigger] before[i]).key@
                != last.key@ by {
                assert(before[i] == defaults[i]);
                assert(defaults[defaults.len() - 1] == last);
            }
        }
        assert forall|key: Seq<char>| registers(defaults, key, secondary) <==> (registers(
            before,
            key,
            secondary,
        ) || (key == last.key@ && !left_out(key, secondary))) by {
            if registers(before, key, secondary) {
                let i = choose|i: int| 0 <= i < before.len() && (#[trigger] before[i]).key@ == key;
                assert(defaults[i].key@ == key);
            }
            if registers(defaults, key, secondary) {
                let i = choose|i: int|
                    0 <= i < defaults.len() && (#[trigger] defaults[i]).key@ == key;
                if i < before.len() {
                    assert(before[i].key@ == key);
                }
            }
            assert(defaults[defaults.len() - 1] == last);
        }
        assert forall|key: Seq<char>| #[trigger] keys.contains(key) <==> registers(
            defaults,
            key,
            secondary,
        ) by {
            if !left_out(last.key@, secondary) {
                assert(keys[earlier.len() as int] == last.key@);
                if earlier.contains(key) {
                    let k = choose|k: int| 0 <= k < earlier.len() && earlier[k] == key;
                    assert(keys[k] == key);
                }
                if keys.contains(key) {
                    let k = choose|k: int| 0 <= k < keys.len() && keys[k] == key;
                    if k < earlier.len() {
                        assert(earlier[k] == key);
                    }
                }
            }
            assert(earlier.contains(key) <==> registers(before, key, secondary));
        }
        assert(keys.no_duplicates()) by {
            assert(!earlier.contains(last.key@));
            assert forall|i: int, j: int|
                0 <= i < keys.len() && 0 <= j < keys.len() && i != j implies keys[i] != keys[j] by {
                if !left_out(last.key@, secondary) {
                    if i < earlier.len() {
                        assert(earlier.contains(earlier[i]));
                    }
                    if j < earlier.len() {
                        assert(earlier.contains(earlier[j]));
                    }
                }
            }
        }
        assert forall|k: int| 0 <= k < keys.len() implies (#[trigger] bindings[k]) == (
        match looked_up(user, keys[k]) {
            Some(binding) => binding,
            None => looked_up(defaults, keys[k])->0,
        }) by {
            if k < earlier.len() {
                assert(startup_bindings(before, user, secondary)[k] == bindings[k]);
                assert(earlier.contains(keys[k]));
                let i = choose|i: int|
                    0 <= i < before.len() && (#[trigger] before[i]).key@ == keys[k];
                lemma_looked_up(before, i);
                lemma_looked_up(defaults, i);
            } else {
                lemma_looked_up(defaults, defaults.len() - 1);
            }
        }
    }
}

/// At startup each default shortcut that is not left out is registered exactly
/// once, and nothing else is: with the user's binding where they have one, else
/// with the default.
pub proof fn law_each_shortcut_is_registered_once(
    defaults: Seq<BindingEntry>,
    user: Seq<BindingEntry>,
    secondary: bool,
)
    requires
        distinct_keys(defaults),
        distinct_keys(user),
    ensures
        ({
            let keys = startup_keys(defaults, secondary);
            let bindings = startup_bindings(defaults, user, secondary);
            &&& keys.len() == bindings.len()
            &&& keys.no_duplicates()
            &&& forall|key: Seq<char>| #[trigger] keys.contains(key) <==> registers(
                defaults,
                key,
                secondary,
            )
            &&& forall|k: int, i: int|
                0 <= k < keys.len() && 0 <= i < user.len() && (#[trigger] user[i]).key@ == keys[k]
                    ==> (#[trigger] bindings[k]) == user[i].binding@
            &&& forall|k: int, i: int|
                0 <= k < keys.len() && 0 <= i < defaults.len() && (#[trigger] defaults[i]).key@
                    == keys[k] && looked_up(user, keys[k]) is None ==> (#[trigger] bindings[k])
                    == defaults[i].binding@
        }),
{
    lemma_startup(defaults, user, secondary);
    let keys = startup_keys(defaults, secondary);
    let bindings = startup_bindings(defaults, user, secondary);
    assert forall|k: int, i: int|
        0 <= k < keys.len() && 0 <= i < user.len() && (#[trigger] user[i]).key@
            == keys[k] implies (#[trigger] bindings[k]) == user[i].binding@ by {
        lemma_looked_up(user, i);
    }
    assert forall|k: int, i: int|
        0 <= k < keys.len() && 0 <= i < defaults.len() && (#[trigger] defaults[i]).key@ == keys[k]
            && looked_up(user, keys[k]) is None implies (#[trigger] bindings[k])
        == defaults[i].binding@ by {
        lemma_looked_up(defaults, i);
    }
}

/// The keys that only modify another key, and the one that no shortcut can hold.
pub proof fn law_which_keys_modify(part: Seq<char>)
    ensures
        modifier(part) <==> seq![
            "ctrl"@,
            "control"@,
            "shift"@,
            "alt"@,
            "option"@,
            "meta"@,
            "command"@,
            "cmd"@,
            "super"@,
            "win"@,
            "windows"@,
        ].contains(part),
        function_key(part) <==> part == "fn"@ || part == "function"@,
        main_key(part) <==> part.len() > 0 && !modifier(part),
{
    let all = seq![
        "ctrl"@,
        "control"@,
        "shift"@,
        "alt"@,
        "option"@,
        "meta"@,
        "command"@,
        "cmd"@,
        "super"@,
        "win"@,
        "windows"@,
    ];
    assert(all[0] == "ctrl"@ && all[1] == "control"@ && all[2] == "shift"@ && all[3] == "alt"@);
    assert(all[4] == "option"@ && all[5] == "meta"@ && all[6] == "command"@ && all[7] == "cmd"@);
    assert(all[8] == "super"@ && all[9] == "win"@ && all[10] == "windows"@);
}

/// A shortcut is accepted exactly where it is not blank, holds no function key and
/// holds a key that modifies no other. So one main key, with whatever modifiers
/// before or behind it, is a shortcut, and a function key spoils any.
pub proof fn law_what_is_a_shortcut(
    front: Seq<Seq<char>>,
    key: Seq<char>,
    back: Seq<Seq<char>>,
    bad: Seq<char>,
)
    requires
        key.len() > 0,
        !modifier(key),
        !function_key(key),
        forall|i: int| 0 <= i < front.len() ==> !function_key(#[trigger] front[i]),
        forall|i: int| 0 <= i < back.len() ==> !function_key(#[trigger] back[i]),
        function_key(bad),
    ensures
        shortcut_fault(false, front + seq![key] + back) is None,
        shortcut_fault(true, front + seq![key] + back) == Some("Shortcut cannot be empty"@),
        shortcut_fault(false, front + seq![bad] + back) == Some(
            "The 'fn' key is not supported by Tauri global shortcuts"@,
        ),
{
    let good = front + seq![key] + back;
    let spoilt = front + seq![bad] + back;
    let n = front.len() as int;
    assert(good[n] == key);
    assert(main_key(good[n]));
    assert forall|i: int| 0 <= i < good.len() implies !function_key(#[trigger] good[i]) by {
        if i < n {
            assert(good[i] == front[i]);
        } else if i > n {
            assert(good[i] == back[i - n - 1]);
        }
    }
    assert(spoilt[n] == bad);
    assert(function_key(spoilt[n]));
}

/// The keys of a shortcut are what stands between its plus signs, trimmed and in
/// lower case, all of them and in order.
pub proof fn law_keys_stand_between_plus_signs(raw: Seq<char>, i: int)
    requires
        0 <= i < text::pieces(raw, '+').len(),
    ensures
        keys_of(raw).len() == text::pieces(raw, '+').len(),
        keys_of(raw)[i] == text::lowercase_text(text::trimmed(text::pieces(raw, '+')[i])),
        !text::pieces(raw, '+')[i].contains('+'),
{
    text::law_pieces_make_up_the_text(raw, '+');
}

/// A reconcile acts exactly where what is wanted is not what is so, in the right
/// direction, and only on a binding that can be used.
pub proof fn law_a_reconcile_acts_where_it_must(wanted: bool, usable: bool, registered: bool)
    ensures
        reconciled(wanted, usable, registered) == Reconcile::Register <==> usable && wanted
            && !registered,
        reconciled(wanted, usable, registered) == Reconcile::Unregister <==> usable && !wanted
            && registered,
        reconciled(wanted, usable, registered) == Reconcile::Nothing <==> !usable || wanted
            == registered,
        registered_after(registered, Reconcile::Register),
        !registered_after(registered, Reconcile::Unregister),
        registered_after(registered, Reconcile::Nothing) == registered,
{
}

/// Only two shortcuts are ever left out at startup: cancelling, always, and
/// post-processing, where nothing needs it.
pub proof fn law_which_shortcuts_are_left_out(key: Seq<char>, secondary: bool)
    ensures
        left_out("cancel"@, secondary),
        left_out("transcribe_with_post_process"@, false),
        key != "cancel"@ ==> !left_out(key, true),
        key != "cancel"@ && key != "transcribe_with_post_process"@ ==> !left_out(key, secondary),
{
}

/// A binding is its name and its keys, and a list of them keeps its order.
pub proof fn law_a_binding_is_its_name_and_keys(bindings: Seq<ShortcutBinding>, i: int)
    requires
        0 <= i < bindings.len(),
    ensures
        binding_views(bindings).len() == bindings.len(),
        binding_views(bindings)[i].id == bindings[i].id@,
        binding_views(bindings)[i].current == bindings[i].current_binding@,
{
}

} // verus!
