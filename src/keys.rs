use vstd::prelude::*;

verus! {

/// A key press, as far as the bindings tell keys apart.
#[derive(Clone, Copy, Debug, PartialEq, Eq, Structural)]
pub enum Key {
    Backspace,
    Char(char),
}

/// What a bound key asks for.
#[derive(Clone, Copy, Debug, PartialEq, Eq, Structural)]
pub enum Command {
    GoBack,
    OpenHelp,
    OpenSearch,
    Quit,
}

/// The keys bound in every layer, each with what it asks for.
pub open spec fn bindings_spec() -> Seq<(Key, Command)> {
    seq![
        (Key::Backspace, Command::GoBack),
        (Key::Char('h'), Command::OpenHelp),
        (Key::Char('s'), Command::OpenSearch),
        (Key::Char('q'), Command::Quit),
    ]
}

/// The command bound to `k`, if any.
pub open spec fn command_for(k: Key) -> Option<Command> {
    match k {
        Key::Backspace => Some(Command::GoBack),
        Key::Char('h') => Some(Command::OpenHelp),
        Key::Char('s') => Some(Command::OpenSearch),
        Key::Char('q') => Some(Command::Quit),
        Key::Char(_) => None,
    }
}

/// The fixed table of key bindings, to be installed once.
pub fn key_bindings() -> (r: Vec<(Key, Command)>)
    ensures
        r@ == bindings_spec(),
{
    let r = vec![
        (Key::Backspace, Command::GoBack),
        (Key::Char('h'), Command::OpenHelp),
        (Key::Char('s'), Command::OpenSearch),
        (Key::Char('q'), Command::Quit),
    ];
    assert(r@ =~= bindings_spec());
    r
}

/// Looks `k` up in the table of key bindings.
pub fn dispatch(k: Key) -> (r: Option<Command>)
    ensures
        r == command_for(k),
        r matches Some(c) ==> bindings_spec().contains((k, c)),
        r is None ==> forall|i: int|
            0 <= i < bindings_spec().len() ==> (#[trigger] bindings_spec()[i]).0 != k,
{
    let table = key_bindings();
    let mut i: usize = 0;
    while i < table.len()
        invariant
            table@ == bindings_spec(),
            i <= table@.len(),
            forall|j: int| 0 <= j < i ==> (#[trigger] table@[j]).0 != k,
        decreases table@.len() - i,
    {
        if table[i].0 == k {
            let c = table[i].1;
            proof {
                assert(bindings_spec()[i as int] == (k, c));
            }
            return Some(c);
        }
        i = i + 1;
    }
    None
}

} // verus!
