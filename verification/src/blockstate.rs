//! The named state of a block: a name and an ordered list of properties.
//! This is the form in which blocks are written to storage.

use crate::text::str_eq;
use vstd::prelude::*;

verus! {

/// A block as storage names it: `Blockstate(name, properties)`. A property
/// is a pair of a name and a value.
#[derive(Debug, Clone, PartialEq, Eq, Hash)]
pub struct Blockstate(pub String, pub Vec<(String, String)>);

/// What a `Blockstate` holds, as sequences of characters.
pub ghost struct StateView {
    pub name: Seq<char>,
    pub props: Seq<(Seq<char>, Seq<char>)>,
}

/// The properties of a state as pairs of character sequences.
pub open spec fn props_view(props: Seq<(String, String)>) -> Seq<(Seq<char>, Seq<char>)> {
    props.map_values(|p: (String, String)| (p.0@, p.1@))
}

/// The value of the first property named `key`.
pub open spec fn spec_prop(props: Seq<(Seq<char>, Seq<char>)>, key: Seq<char>) -> Option<
    Seq<char>,
>
    decreases props.len(),
{
    if props.len() == 0 {
        None
    } else if props[0].0 == key {
        Some(props[0].1)
    } else {
        spec_prop(props.skip(1), key)
    }
}

/// A state without properties.
pub open spec fn plain(name: Seq<char>) -> StateView {
    StateView { name, props: seq![] }
}

/// One property of a state in the text of an item: `key:"value",`.
pub open spec fn spec_snbt_prop(prop: (Seq<char>, Seq<char>)) -> Seq<char> {
    prop.0 + ":\""@ + prop.1 + "\","@
}

/// The properties of a state in the text of an item, one after another.
pub open spec fn spec_snbt_props(props: Seq<(Seq<char>, Seq<char>)>) -> Seq<char>
    decreases props.len(),
{
    if props.len() == 0 {
        Seq::empty()
    } else {
        spec_snbt_props(props.drop_last()) + spec_snbt_prop(props.last())
    }
}

/// The text of one item of the block: its name as `id`, a count of one, and
/// its properties under `BlockStateTag`.
pub open spec fn spec_item_snbt(state: StateView) -> Seq<char> {
    "{id:\""@ + state.name + "\",Count:1,tag:{BlockStateTag:{"@ + spec_snbt_props(state.props)
        + "}}}"@
}

/// One property in the readable form of a state: `key=value,`.
pub open spec fn spec_display_prop(prop: (Seq<char>, Seq<char>)) -> Seq<char> {
    prop.0 + "="@ + prop.1 + ","@
}

/// The properties in the readable form of a state, one after another.
pub open spec fn spec_display_props(props: Seq<(Seq<char>, Seq<char>)>) -> Seq<char>
    decreases props.len(),
{
    if props.len() == 0 {
        Seq::empty()
    } else {
        spec_display_props(props.drop_last()) + spec_display_prop(props.last())
    }
}

/// The readable form of a state: `name[key=value,key=value,]`.
pub open spec fn spec_display(state: StateView) -> Seq<char> {
    state.name + "["@ + spec_display_props(state.props) + "]"@
}

impl View for Blockstate {
    type V = StateView;

    open spec fn view(&self) -> StateView {
        StateView { name: self.0@, props: props_view(self.1@) }
    }
}

/// A property with the given name and value.
pub fn property(key: &str, value: &str) -> (r: (String, String))
    ensures
        r.0@ == key@,
        r.1@ == value@,
{
    (String::from_str(key), String::from_str(value))
}

/// `prefix` followed by `suffix`.
pub fn joined(prefix: &str, suffix: &str) -> (r: String)
    ensures
        r@ == prefix@ + suffix@,
{
    let mut s = String::from_str(prefix);
    s.append(suffix);
    s
}

/// The value of the first property named `key`.
pub fn prop<'a>(props: &'a Vec<(String, String)>, key: &str) -> (r: Option<&'a str>)
    ensures
        match r {
            Some(value) => spec_prop(props_view(props@), key@) == Some(value@),
            None => spec_prop(props_view(props@), key@) is None,
        },
{
    let ghost all = props_view(props@);
    assert(all.skip(0) =~= all);
    let mut i: usize = 0;
    while i < props.len()
        invariant
            i <= props.len(),
            all == props_view(props@),
            spec_prop(all, key@) == spec_prop(all.skip(i as int), key@),
        decreases props.len() - i,
    {
        let ghost rest = all.skip(i as int);
        assert(rest[0] == all[i as int]);
        assert(rest.skip(1) =~= all.skip(i + 1));
        if str_eq(props[i].0.as_str(), key) {
            return Some(props[i].1.as_str());
        }
        i = i + 1;
    }
    None
}

impl Blockstate {
    /// A state with the given name and no properties.
    pub fn named(name: String) -> (r: Blockstate)
        ensures
            r@ == plain(name@),
    {
        let r = Blockstate(name, Vec::new());
        assert(r@.props =~= seq![]);
        r
    }

    /// A state with the given name and properties.
    pub fn new(name: String, props: Vec<(String, String)>) -> (r: Blockstate)
        ensures
            r@ == (StateView { name: name@, props: props_view(props@) }),
    {
        Blockstate(name, props)
    }

    /// A copy of the state.
    pub fn duplicate(&self) -> (r: Blockstate)
        ensures
            r@ == self@,
    {
        let mut props: Vec<(String, String)> = Vec::new();
        let mut i: usize = 0;
        while i < self.1.len()
            invariant
                i <= self.1.len(),
                props.len() == i,
                forall|j: int|
                    0 <= j < i ==> (#[trigger] props[j]).0@ == self.1[j].0@ && props[j].1@
                        == self.1[j].1@,
            decreases self.1.len() - i,
        {
            props.push((self.1[i].0.clone(), self.1[i].1.clone()));
            i = i + 1;
        }
        let r = Blockstate(self.0.clone(), props);
        assert(r@.props =~= self@.props);
        r
    }

    /// Whether the two states have the same name and the same properties
    /// in the same order.
    pub fn same_as(&self, other: &Blockstate) -> (r: bool)
        ensures
            r == (self@ == other@),
    {
        if !str_eq(self.0.as_str(), other.0.as_str()) {
            return false;
        }
        if self.1.len() != other.1.len() {
            assert(self@.props.len() != other@.props.len());
            return false;
        }
        let mut i: usize = 0;
        while i < self.1.len()
            invariant
                i <= self.1.len(),
                self.1.len() == other.1.len(),
                forall|j: int| 0 <= j < i ==> self@.props[j] == other@.props[j],
            decreases self.1.len() - i,
        {
            if !str_eq(self.1[i].0.as_str(), other.1[i].0.as_str()) || !str_eq(
                self.1[i].1.as_str(),
                other.1[i].1.as_str(),
            ) {
                assert(self@.props[i as int] != other@.props[i as int]);
                return false;
            }
            i = i + 1;
        }
        assert(self@.props =~= other@.props);
        true
    }

    /// The text of one item of this block, as a command takes it.
    pub fn item_snbt(&self) -> (r: String)
        ensures
            r@ == spec_item_snbt(self@),
    {
        let mut text = String::from_str("{id:\"");
        text.append(self.0.as_str());
        text.append("\",Count:1,tag:{BlockStateTag:{");
        let ghost head = text@;
        let ghost all = self@.props;
        let mut i: usize = 0;
        while i < self.1.len()
            invariant
                i <= self.1.len(),
                all == self@.props,
                text@ == head + spec_snbt_props(all.take(i as int)),
            decreases self.1.len() - i,
        {
            let ghost before = text@;
            text.append(self.1[i].0.as_str());
            text.append(":\"");
            text.append(self.1[i].1.as_str());
            text.append("\",");
            proof {
                let upto = all.take(i + 1);
                assert(upto.drop_last() =~= all.take(i as int));
                assert(upto.last() == all[i as int]);
                assert(text@ =~= before + spec_snbt_prop(all[i as int]));
                assert(text@ =~= head + spec_snbt_props(upto));
            }
            i = i + 1;
        }
        assert(all.take(i as int) =~= all);
        text.append("}}}");
        assert(text@ =~= spec_item_snbt(self@));
        text
    }

    /// The readable form of the state: `name[key=value,key=value,]`.
    pub fn display(&self) -> (r: String)
        ensures
            r@ == spec_display(self@),
    {
        let mut text = String::from_str(self.0.as_str());
        text.append("[");
        let ghost head = text@;
        let ghost all = self@.props;
        let mut i: usize = 0;
        while i < self.1.len()
            invariant
                i <= self.1.len(),
                all == self@.props,
                text@ == head + spec_display_props(all.take(i as int)),
            decreases self.1.len() - i,
        {
            let ghost before = text@;
            text.append(self.1[i].0.as_str());
            text.append("=");
            text.append(self.1[i].1.as_str());
            text.append(",");
            proof {
                let upto = all.take(i + 1);
                assert(upto.drop_last() =~= all.take(i as int));
                assert(upto.last() == all[i as int]);
                assert(text@ =~= before + spec_display_prop(all[i as int]));
                assert(text@ =~= head + spec_display_props(upto));
            }
            i = i + 1;
        }
        assert(all.take(i as int) =~= all);
        text.append("]");
        assert(text@ =~= spec_display(self@));
        text
    }
}

} // verus!
