use vstd::prelude::*;

verus! {

/// A key and a value attached to an event.
#[derive(Clone, Debug, PartialEq, Eq)]
pub struct Attribute {
    pub key: String,
    pub value: String,
}

/// A ledger event: its type and its attributes, in order.
#[derive(Clone, Debug, PartialEq, Eq)]
pub struct Event {
    pub ty: String,
    pub attributes: Vec<Attribute>,
}

/// The attribute `(key, value)` as plain text.
pub open spec fn attribute_view(a: Attribute) -> (Seq<char>, Seq<char>) {
    (a.key@, a.value@)
}

/// A `(name, value)` pair as plain text.
pub open spec fn pair_view(p: (String, String)) -> (Seq<char>, Seq<char>) {
    (p.0@, p.1@)
}

/// The key under which an event carries its whole serialized form.
pub open spec fn json_key() -> Seq<char> {
    seq!['_', 'j', 's', 'o', 'n']
}

impl Event {
    /// The event's attributes as plain text.
    pub open spec fn attributes_view(&self) -> Seq<(Seq<char>, Seq<char>)> {
        self.attributes@.map_values(|a: Attribute| attribute_view(a))
    }

    /// An event of type `ty` with no attributes.
    pub fn new(ty: String) -> (r: Event)
        ensures
            r.ty@ == ty@,
            r.attributes_view() == Seq::<(Seq<char>, Seq<char>)>::empty(),
    {
        let e = Event { ty, attributes: Vec::new() };
        proof {
            assert(e.attributes_view() =~= Seq::<(Seq<char>, Seq<char>)>::empty());
        }
        e
    }

    /// The event with `(key, value)` appended.
    pub fn add_attribute(self, key: String, value: String) -> (r: Event)
        ensures
            r.ty@ == self.ty@,
            r.attributes_view() == self.attributes_view().push((key@, value@)),
    {
        let mut e = self;
        let ghost before = e.attributes_view();
        e.attributes.push(Attribute { key, value });
        proof {
            assert(e.attributes_view() =~= before.push((key@, value@)));
        }
        e
    }

    /// The event with `attrs` appended, in order.
    pub fn add_attributes(self, attrs: Vec<(String, String)>) -> (r: Event)
        ensures
            r.ty@ == self.ty@,
            r.attributes_view() == self.attributes_view() + attrs@.map_values(
                |p: (String, String)| pair_view(p),
            ),
    {
        let mut e = self;
        let ghost start = e.attributes_view();
        let ghost pairs = attrs@.map_values(|p: (String, String)| pair_view(p));
        let mut rest = attrs;
        let n = rest.len();
        let mut taken: usize = 0;
        while rest.len() > 0
            invariant
                n == attrs@.len(),
                pairs == attrs@.map_values(|p: (String, String)| pair_view(p)),
                pairs.len() == n,
                taken + rest@.len() == n,
                forall|i: int| 0 <= i < rest@.len() ==> #[trigger] rest@[i] == attrs@[taken + i],
                e.ty@ == self.ty@,
                e.attributes_view() == start + pairs.subrange(0, taken as int),
            decreases rest@.len(),
        {
            let ghost old_rest = rest@;
            let pair = rest.remove(0);
            let (k, v) = pair;
            let ghost before = e.attributes_view();
            proof {
                assert(old_rest[0] == attrs@[taken as int]);
                assert(pair == attrs@[taken as int]);
                assert(0 <= taken < pairs.len());
                assert(pairs[taken as int] == pair_view(attrs@[taken as int]));
                assert(pairs[taken as int] == (k@, v@));
                assert forall|i: int| 0 <= i < rest@.len() implies #[trigger] rest@[i] == attrs@[
                    taken + 1 + i
                ] by {
                    assert(rest@[i] == old_rest[i + 1]);
                }
            }
            e.attributes.push(Attribute { key: k, value: v });
            taken = taken + 1;
            proof {
                assert(e.attributes_view() =~= before.push(pairs[(taken - 1) as int]));
                assert(pairs.subrange(0, taken as int) =~= pairs.subrange(0, (taken - 1) as int).push(
                    pairs[(taken - 1) as int],
                ));
            }
        }
        proof {
            assert(pairs.subrange(0, n as int) =~= pairs);
        }
        e
    }
}

/// The event for a typed event's parts: type `ty`, then `("_json", json)`,
/// then each of `fields` in order.
pub fn event_from_parts(ty: String, json: String, fields: Vec<(String, String)>) -> (r: Event)
    ensures
        r.ty@ == ty@,
        r.attributes_view() == seq![(json_key(), json@)] + fields@.map_values(
            |p: (String, String)| pair_view(p),
        ),
{
    proof {
        reveal_strlit("_json");
    }
    let e = Event::new(ty);
    let key = "_json".to_owned();
    proof {
        assert(key@ =~= json_key());
    }
    let e = e.add_attribute(key, json);
    proof {
        assert(e.attributes_view() =~= seq![(json_key(), json@)]);
    }
    e.add_attributes(fields)
}

/// An event type that can be emitted on the ledger.
pub trait TypedEvent {
    /// The event's type, as the ledger shows it.
    fn event_type(&self) -> String;

    /// The event serialized as JSON, or why that failed.
    fn to_json(&self) -> Result<String, String>;

    /// The event's fields as `(name, value)` text pairs, in declaration order.
    fn fields(&self) -> Vec<(String, String)>;

    /// The ledger event: `event_type`, then `("_json", to_json())`, then the
    /// fields; the serialization error when `to_json` fails.
    fn as_event(&self) -> (r: Result<Event, String>) {
        match self.to_json() {
            Ok(json) => Ok(event_from_parts(self.event_type(), json, self.fields())),
            Err(e) => Err(e),
        }
    }
}

} // verus!
