//! Keyboard commands: literal text, and one key struck while modifiers are
//! held.

use vstd::prelude::*;
use crate::action::{steps, ActionModel, Direction, InputAction, KeyCode};
use crate::text::{lowercase_of, same_text, to_lowercase};
use vstd::string::StrSliceExecFns;
use vstd::string::StringExecFns;

verus! {

/// The modifier that a name stands for: `Control`, `Shift`, `Alt` or `Meta`,
/// written exactly so, and no other.
pub open spec fn modifier_named(name: Seq<char>) -> Option<KeyCode> {
    if name == "Control"@ {
        Some(KeyCode::Control)
    } else if name == "Shift"@ {
        Some(KeyCode::Shift)
    } else if name == "Alt"@ {
        Some(KeyCode::Alt)
    } else if name == "Meta"@ {
        Some(KeyCode::Meta)
    } else {
        None
    }
}

/// The named key that a lower-case name stands for.
pub open spec fn key_named(lowered: Seq<char>) -> Option<KeyCode> {
    if lowered == "enter"@ || lowered == "return"@ {
        Some(KeyCode::Return)
    } else if lowered == "backspace"@ {
        Some(KeyCode::Backspace)
    } else if lowered == "tab"@ {
        Some(KeyCode::Tab)
    } else if lowered == "space"@ {
        Some(KeyCode::Space)
    } else if lowered == "escape"@ || lowered == "esc"@ {
        Some(KeyCode::Escape)
    } else if lowered == "left"@ || lowered == "arrowleft"@ {
        Some(KeyCode::LeftArrow)
    } else if lowered == "right"@ || lowered == "arrowright"@ {
        Some(KeyCode::RightArrow)
    } else if lowered == "up"@ || lowered == "arrowup"@ {
        Some(KeyCode::UpArrow)
    } else if lowered == "down"@ || lowered == "arrowdown"@ {
        Some(KeyCode::DownArrow)
    } else {
        None
    }
}

/// The key that a chord strikes: a text of exactly one character is that
/// character; any other text is looked up, in lower case, among the named
/// keys, and strikes nothing when it is not one of them.
pub open spec fn target_key(key: Seq<char>) -> Option<KeyCode> {
    if key.len() == 1 {
        Some(KeyCode::Unicode(key[0]))
    } else {
        key_named(lowercase_of(key))
    }
}

/// The characters of each of a list of texts.
pub open spec fn names_of(texts: Seq<String>) -> Seq<Seq<char>> {
    texts.map_values(|text: String| text@)
}

/// The modifiers that a list of names holds down: each name that is a
/// modifier's, in the order given; the other names count for nothing.
pub open spec fn held_modifiers(names: Seq<Seq<char>>) -> Seq<KeyCode>
    decreases names.len(),
{
    if names.len() == 0 {
        Seq::empty()
    } else {
        held_modifiers(names.drop_last()) + match modifier_named(names.last()) {
            Some(key) => seq![key],
            None => Seq::empty(),
        }
    }
}

/// One action on each of `keys`, in order, all in the same direction.
pub open spec fn key_actions(keys: Seq<KeyCode>, direction: Direction) -> Seq<ActionModel> {
    keys.map_values(|key: KeyCode| ActionModel::Key { key, direction })
}

/// The click of the target key, where there is one.
pub open spec fn target_actions(target: Option<KeyCode>) -> Seq<ActionModel> {
    match target {
        Some(key) => seq![ActionModel::Key { key, direction: Direction::Click }],
        None => Seq::empty(),
    }
}

/// The plan of a chord: press each held modifier, click the target key if
/// there is one, release each held modifier in the order of the presses.
pub open spec fn chord_plan(held: Seq<KeyCode>, target: Option<KeyCode>) -> Seq<ActionModel> {
    key_actions(held, Direction::Press) + target_actions(target) + key_actions(
        held,
        Direction::Release,
    )
}

/// The keys on which a plan acts in the given direction, in order.
pub open spec fn keys_acted(plan: Seq<ActionModel>, direction: Direction) -> Seq<KeyCode>
    decreases plan.len(),
{
    if plan.len() == 0 {
        Seq::empty()
    } else {
        keys_acted(plan.drop_last(), direction) + match plan.last() {
            ActionModel::Key { key, direction: d } => if d == direction {
                seq![key]
            } else {
                Seq::empty()
            },
            _ => Seq::empty(),
        }
    }
}

/// Reads a modifier's name.
pub fn parse_modifier(name: &str) -> (modifier: Option<KeyCode>)
    ensures
        modifier == modifier_named(name@),
{
    if same_text(name, "Control") {
        Some(KeyCode::Control)
    } else if same_text(name, "Shift") {
        Some(KeyCode::Shift)
    } else if same_text(name, "Alt") {
        Some(KeyCode::Alt)
    } else if same_text(name, "Meta") {
        Some(KeyCode::Meta)
    } else {
        None
    }
}

/// Looks a lower-case name up among the named keys.
pub fn resolve_key_name(lowered: &str) -> (key: Option<KeyCode>)
    ensures
        key == key_named(lowered@),
{
    if same_text(lowered, "enter") || same_text(lowered, "return") {
        Some(KeyCode::Return)
    } else if same_text(lowered, "backspace") {
        Some(KeyCode::Backspace)
    } else if same_text(lowered, "tab") {
        Some(KeyCode::Tab)
    } else if same_text(lowered, "space") {
        Some(KeyCode::Space)
    } else if same_text(lowered, "escape") || same_text(lowered, "esc") {
        Some(KeyCode::Escape)
    } else if same_text(lowered, "left") || same_text(lowered, "arrowleft") {
        Some(KeyCode::LeftArrow)
    } else if same_text(lowered, "right") || same_text(lowered, "arrowright") {
        Some(KeyCode::RightArrow)
    } else if same_text(lowered, "up") || same_text(lowered, "arrowup") {
        Some(KeyCode::UpArrow)
    } else if same_text(lowered, "down") || same_text(lowered, "arrowdown") {
        Some(KeyCode::DownArrow)
    } else {
        None
    }
}

/// The key that `key` asks a chord to strike, if any.
pub fn resolve_key(key: &str) -> (target: Option<KeyCode>)
    ensures
        target == target_key(key@),
        key@.len() == 1 ==> target == Some(KeyCode::Unicode(key@[0])),
{
    if key.unicode_len() == 1 {
        Some(KeyCode::Unicode(key.get_char(0)))
    } else {
        let lowered = to_lowercase(key);
        resolve_key_name(lowered.as_str())
    }
}

/// The modifiers that `modifiers` names, in order.
pub fn held_keys(modifiers: &Vec<String>) -> (held: Vec<KeyCode>)
    ensures
        held@ == held_modifiers(names_of(modifiers@)),
{
    let ghost names = names_of(modifiers@);
    let mut held: Vec<KeyCode> = Vec::new();
    let mut i: usize = 0;
    while i < modifiers.len()
        invariant
            i <= modifiers.len(),
            names == names_of(modifiers@),
            held@ == held_modifiers(names.take(i as int)),
        decreases modifiers.len() - i,
    {
        proof {
            let next = names.take(i + 1);
            assert(next.drop_last() =~= names.take(i as int));
            assert(next.last() == modifiers@[i as int]@);
        }
        match parse_modifier(modifiers[i].as_str()) {
            Some(key) => {
                held.push(key);
            },
            None => {},
        }
        i += 1;
    }
    proof {
        assert(names.take(i as int) =~= names);
    }
    held
}

fn push_keys(plan: &mut Vec<InputAction>, keys: &Vec<KeyCode>, direction: Direction)
    ensures
        steps(final(plan)@) == steps(old(plan)@) + key_actions(keys@, direction),
{
    let ghost before = steps(plan@);
    let mut i: usize = 0;
    while i < keys.len()
        invariant
            i <= keys.len(),
            steps(plan@) == before + key_actions(keys@.take(i as int), direction),
        decreases keys.len() - i,
    {
        let ghost prior = steps(plan@);
        let ghost added = ActionModel::Key { key: keys@[i as int], direction };
        plan.push(InputAction::Key { key: keys[i], direction });
        proof {
            assert(steps(plan@) =~= prior + seq![added]);
            assert(key_actions(keys@.take(i + 1), direction) =~= key_actions(
                keys@.take(i as int),
                direction,
            ) + seq![added]);
        }
        i += 1;
    }
    proof {
        assert(keys@.take(i as int) =~= keys@);
    }
}

/// Plans a chord on a target key that is already resolved: a press of each
/// modifier that `modifiers` names, the click of `target` if there is one,
/// then a release of each of those modifiers in the same order. Names that
/// are no modifier's are passed over, at the presses and at the releases
/// alike.
pub fn plan_chord(target: Option<KeyCode>, modifiers: &Vec<String>) -> (plan: Vec<InputAction>)
    ensures
        steps(plan@) == chord_plan(held_modifiers(names_of(modifiers@)), target),
{
    let held = held_keys(modifiers);
    let mut plan: Vec<InputAction> = Vec::new();
    proof {
        assert(steps(plan@) =~= Seq::<ActionModel>::empty());
    }
    push_keys(&mut plan, &held, Direction::Press);
    let ghost pressed = steps(plan@);
    match target {
        Some(key) => {
            plan.push(InputAction::Key { key, direction: Direction::Click });
        },
        None => {},
    }
    proof {
        assert(steps(plan@) =~= pressed + target_actions(target));
    }
    push_keys(&mut plan, &held, Direction::Release);
    proof {
        assert(steps(plan@) =~= chord_plan(held@, target));
    }
    plan
}

/// Strikes `key` while the modifiers named in `modifiers` are held. A `key`
/// that is neither one character nor a known name strikes nothing, and the
/// modifiers are pressed and released all the same.
pub fn press_key(key: &str, modifiers: &Vec<String>) -> (plan: Vec<InputAction>)
    ensures
        steps(plan@) == chord_plan(held_modifiers(names_of(modifiers@)), target_key(key@)),
        keys_acted(steps(plan@), Direction::Press) == held_modifiers(names_of(modifiers@)),
        keys_acted(steps(plan@), Direction::Release) == held_modifiers(names_of(modifiers@)),
{
    let target = resolve_key(key);
    proof {
        lemma_chord_symmetric(held_modifiers(names_of(modifiers@)), target);
    }
    plan_chord(target, modifiers)
}

/// Enters `text` as it stands: one action, whatever the text holds.
pub fn type_text(text: &str) -> (plan: Vec<InputAction>)
    ensures
        steps(plan@) == seq![ActionModel::Text { text: text@ }],
{
    let mut plan: Vec<InputAction> = Vec::new();
    plan.push(InputAction::Text { text: String::from_str(text) });
    proof {
        assert(steps(plan@) =~= seq![ActionModel::Text { text: text@ }]);
    }
    plan
}

/// The keys acted on by two plans run one after the other are those of the
/// first followed by those of the second.
pub proof fn lemma_keys_acted_concat(
    first: Seq<ActionModel>,
    second: Seq<ActionModel>,
    direction: Direction,
)
    ensures
        keys_acted(first + second, direction) == keys_acted(first, direction) + keys_acted(
            second,
            direction,
        ),
    decreases second.len(),
{
    if second.len() == 0 {
        assert(first + second =~= first);
        assert(keys_acted(first, direction) + keys_acted(second, direction) =~= keys_acted(
            first,
            direction,
        ));
    } else {
        let whole = first + second;
        assert(whole.drop_last() =~= first + second.drop_last());
        assert(whole.last() == second.last());
        lemma_keys_acted_concat(first, second.drop_last(), direction);
        assert(keys_acted(whole, direction) =~= keys_acted(first, direction) + keys_acted(
            second,
            direction,
        ));
    }
}

/// Actions on `keys` in one direction act on exactly those keys in that
/// direction, and on none in another.
pub proof fn lemma_keys_acted_of_key_actions(
    keys: Seq<KeyCode>,
    made: Direction,
    asked: Direction,
)
    ensures
        keys_acted(key_actions(keys, made), asked) == (if made == asked {
            keys
        } else {
            Seq::empty()
        }),
    decreases keys.len(),
{
    let plan = key_actions(keys, made);
    if keys.len() == 0 {
        assert(keys_acted(plan, asked) =~= Seq::<KeyCode>::empty());
        assert(keys =~= Seq::<KeyCode>::empty());
    } else {
        assert(plan.drop_last() =~= key_actions(keys.drop_last(), made));
        assert(plan.last() == (ActionModel::Key { key: keys.last(), direction: made }));
        lemma_keys_acted_of_key_actions(keys.drop_last(), made, asked);
        if made == asked {
            assert(keys_acted(plan, asked) =~= keys.drop_last() + seq![keys.last()]);
            assert(keys.drop_last() + seq![keys.last()] =~= keys);
        } else {
            assert(keys_acted(plan, asked) =~= Seq::<KeyCode>::empty());
        }
    }
}

/// A chord is symmetric: the modifiers it presses are the modifiers it
/// releases, in the same order, whether or not there is a target key. Both
/// are the held modifiers, and the only click is that of the target.
pub proof fn lemma_chord_symmetric(held: Seq<KeyCode>, target: Option<KeyCode>)
    ensures
        keys_acted(chord_plan(held, target), Direction::Press) == held,
        keys_acted(chord_plan(held, target), Direction::Release) == held,
        keys_acted(chord_plan(held, target), Direction::Click) == (match target {
            Some(key) => seq![key],
            None => Seq::empty(),
        }),
{
    let presses = key_actions(held, Direction::Press);
    let click = target_actions(target);
    let releases = key_actions(held, Direction::Release);
    lemma_target_keys(target, Direction::Press);
    lemma_target_keys(target, Direction::Release);
    lemma_target_keys(target, Direction::Click);
    lemma_keys_acted_of_key_actions(held, Direction::Press, Direction::Press);
    lemma_keys_acted_of_key_actions(held, Direction::Press, Direction::Release);
    lemma_keys_acted_of_key_actions(held, Direction::Press, Direction::Click);
    lemma_keys_acted_of_key_actions(held, Direction::Release, Direction::Press);
    lemma_keys_acted_of_key_actions(held, Direction::Release, Direction::Release);
    lemma_keys_acted_of_key_actions(held, Direction::Release, Direction::Click);
    lemma_keys_acted_concat(presses, click, Direction::Press);
    lemma_keys_acted_concat(presses, click, Direction::Release);
    lemma_keys_acted_concat(presses, click, Direction::Click);
    lemma_keys_acted_concat(presses + click, releases, Direction::Press);
    lemma_keys_acted_concat(presses + click, releases, Direction::Release);
    lemma_keys_acted_concat(presses + click, releases, Direction::Click);
    assert(keys_acted(chord_plan(held, target), Direction::Press) =~= held);
    assert(keys_acted(chord_plan(held, target), Direction::Release) =~= held);
    assert(keys_acted(chord_plan(held, target), Direction::Click) =~= (match target {
        Some(key) => seq![key],
        None => Seq::empty(),
    }));
}

proof fn lemma_target_keys(target: Option<KeyCode>, asked: Direction)
    ensures
        keys_acted(target_actions(target), asked) == (match target {
            Some(key) => if asked == Direction::Click {
                seq![key]
            } else {
                Seq::empty()
            },
            None => Seq::empty(),
        }),
{
    let plan = target_actions(target);
    match target {
        Some(key) => {
            assert(plan.drop_last() =~= Seq::<ActionModel>::empty());
            assert(keys_acted(plan.drop_last(), asked) =~= Seq::<KeyCode>::empty());
            if asked == Direction::Click {
                assert(keys_acted(plan, asked) =~= seq![key]);
            } else {
                assert(keys_acted(plan, asked) =~= Seq::<KeyCode>::empty());
            }
        },
        None => {
            assert(keys_acted(plan, asked) =~= Seq::<KeyCode>::empty());
        },
    }
}

} // verus!
