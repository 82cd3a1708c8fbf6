//! The card generator: a contact record rendered as a vCard 3.0 text block.

use vstd::prelude::*;
use vstd::string::*;

verus! {

/// A contact to hand out: the record a card is generated from.
#[derive(Debug, Clone)]
pub struct VCard {
    pub first_name: String,
    pub last_name: String,
    pub phone_number: String,
}

/// The card for a contact, as text: the name in last;first order, the phone
/// number under the cellular label, closed by the end marker. The fields are
/// put in as they are, with no escaping.
pub open spec fn card_text(first: Seq<char>, last: Seq<char>, phone: Seq<char>) -> Seq<char> {
    "BEGIN:VCARD\nVERSION:3.0\nN:"@ + last + ";"@ + first + "\nTEL;TYPE=CELL:"@ + phone
        + "\nEND:VCARD"@
}

impl VCard {
    /// The card that `generate_vcard` gives for this contact.
    pub open spec fn card(&self) -> Seq<char> {
        card_text(self.first_name@, self.last_name@, self.phone_number@)
    }

    /// The contact that is sent for every trigger: John Doe, 1234567890.
    pub fn example() -> (contact: VCard)
        ensures
            contact.first_name@ == "John"@,
            contact.last_name@ == "Doe"@,
            contact.phone_number@ == "1234567890"@,
    {
        VCard {
            first_name: String::from_str("John"),
            last_name: String::from_str("Doe"),
            phone_number: String::from_str("1234567890"),
        }
    }
}

/// Renders the contact as a vCard text block.
pub fn generate_vcard(contact: &VCard) -> (card: String)
    ensures
        card@ == contact.card(),
{
    let mut card = String::from_str("BEGIN:VCARD\nVERSION:3.0\nN:");
    card.append(contact.last_name.as_str());
    card.append(";");
    card.append(contact.first_name.as_str());
    card.append("\nTEL;TYPE=CELL:");
    card.append(contact.phone_number.as_str());
    card.append("\nEND:VCARD");
    card
}

/// Generation is deterministic: two contacts with the same three fields have
/// the same card, character for character.
pub proof fn lemma_card_deterministic(a: VCard, b: VCard)
    requires
        a.first_name@ == b.first_name@,
        a.last_name@ == b.last_name@,
        a.phone_number@ == b.phone_number@,
    ensures
        a.card() == b.card(),
{
}

/// The card of the example contact, written out.
pub proof fn lemma_example_card(contact: VCard)
    requires
        contact.first_name@ == "John"@,
        contact.last_name@ == "Doe"@,
        contact.phone_number@ == "1234567890"@,
    ensures
        contact.card() == "BEGIN:VCARD\nVERSION:3.0\nN:Doe;John\nTEL;TYPE=CELL:1234567890\nEND:VCARD"@,
{
    reveal_strlit("BEGIN:VCARD\nVERSION:3.0\nN:");
    reveal_strlit("Doe");
    reveal_strlit(";");
    reveal_strlit("John");
    reveal_strlit("\nTEL;TYPE=CELL:");
    reveal_strlit("1234567890");
    reveal_strlit("\nEND:VCARD");
    reveal_strlit("BEGIN:VCARD\nVERSION:3.0\nN:Doe;John\nTEL;TYPE=CELL:1234567890\nEND:VCARD");
    assert(contact.card() =~= "BEGIN:VCARD\nVERSION:3.0\nN:Doe;John\nTEL;TYPE=CELL:1234567890\nEND:VCARD"@);
}

} // verus!
