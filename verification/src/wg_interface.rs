//! The `[Interface]` section: its fields, the rules they obey, and its text.

use vstd::prelude::*;
use vstd::string::StringExecFns;
use crate::address::address_of_text;
use crate::address::ip_network_of_text;
use crate::address::ip_network_text;
use crate::address::Cidr;
use crate::address::WgAddress;
use crate::error::WgConfError;
use crate::error::WgConfErrorView;
use crate::key::is_key_text;
use crate::key::key_of_text;
use crate::key::WgPrivateKey;
use crate::port::decimal_value;
use crate::port::lemma_port_text_reads_back;
use crate::port::parse_port;
use crate::port::port_of_text;
use crate::port::port_text;
use crate::port::port_to_string;
use crate::port::unsigned_digits;
use crate::raw::raw_value;
use crate::raw::RawKeyValues;

verus! {

/// Header line of the section.
pub const TAG: &'static str = "[Interface]";

/// Name of the field that holds the private key.
pub const PRIVATE_KEY: &'static str = "PrivateKey";

/// Name of the field that holds the address.
pub const ADDRESS: &'static str = "Address";

/// Name of the field that holds the listen port.
pub const LISTEN_PORT: &'static str = "ListenPort";

/// Name of the field that holds the command run after the interface comes up.
pub const POST_UP: &'static str = "PostUp";

/// Name of the field that holds the command run after the interface goes down.
pub const POST_DOWN: &'static str = "PostDown";

/// Reason given for a listen port of zero.
pub const ZERO_PORT: &'static str = "port can't be 0";

/// Reason given for port text that is no 16-bit number.
pub const INVALID_PORT: &'static str = "invalid port raw value";

/// Reason given for address text that is not an address with a prefix length.
pub const INVALID_ADDRESS: &'static str = "address must be address with mask (e.g. 10.0.0.1/8)";

/// Mathematical value of a [`WgInterface`].
pub struct WgInterfaceView {
    pub private_key: Seq<char>,
    pub address: Cidr,
    pub listen_port: u16,
    pub post_up: Seq<char>,
    pub post_down: Seq<char>,
}

/// One line of a section: the field's name, ` = `, its value, and a line feed.
pub open spec fn field_line(name: Seq<char>, value: Seq<char>) -> Seq<char> {
    name + " = "@ + value + "\n"@
}

impl WgInterfaceView {
    /// The rules of a section: a valid key, a prefix length in range, a port other than 0.
    pub open spec fn wf(self) -> bool {
        &&& is_key_text(self.private_key)
        &&& self.address.wf()
        &&& self.listen_port != 0
    }

    /// The section as a mapping from field names to the canonical text of each field.
    pub open spec fn raw_key_values(self) -> Map<Seq<char>, Seq<char>> {
        Map::<Seq<char>, Seq<char>>::empty().insert(PRIVATE_KEY@, self.private_key).insert(
            ADDRESS@,
            ip_network_text(self.address),
        ).insert(LISTEN_PORT@, port_text(self.listen_port)).insert(POST_UP@, self.post_up).insert(
            POST_DOWN@,
            self.post_down,
        )
    }

    /// The section as text: the header line, then one line for each field, in fixed order,
    /// then a blank line that parts the section from what follows it.
    pub open spec fn text(self) -> Seq<char> {
        TAG@ + "\n"@ + field_line(PRIVATE_KEY@, self.private_key) + field_line(
            ADDRESS@,
            ip_network_text(self.address),
        ) + field_line(LISTEN_PORT@, port_text(self.listen_port)) + field_line(
            POST_UP@,
            self.post_up,
        ) + field_line(POST_DOWN@, self.post_down) + "\n"@
    }
}

/// Whether `text` closes with a blank line: a line feed that ends the last line, and one
/// more that stands alone.
pub open spec fn ends_with_blank_line(text: Seq<char>) -> bool {
    &&& text.len() >= 2
    &&& text[text.len() - 2] == '\n'
    &&& text[text.len() - 1] == '\n'
}

/// The text of every section closes with a blank line after the last field's line.
pub proof fn lemma_text_ends_with_blank_line(section: WgInterfaceView)
    ensures
        ends_with_blank_line(section.text()),
        section.text() == section.text().drop_last().drop_last() + "\n"@ + "\n"@,
{
    reveal_strlit("\n");
    let feed = "\n"@;
    assert(feed.len() == 1 && feed[0] == '\n');
    let text = section.text();
    let line = field_line(POST_DOWN@, section.post_down);
    assert(line.len() >= 1 && line[line.len() - 1] == '\n');
    assert(text =~= text.drop_last().drop_last() + feed + feed);
}

/// A failed validation with the given reason.
pub open spec fn validation_failed(reason: Seq<char>) -> WgConfErrorView {
    WgConfErrorView::ValidationFailed(reason)
}

/// What building a section from typed values gives.
pub open spec fn section_of_values(
    private_key: Seq<char>,
    address: Cidr,
    listen_port: u16,
    post_up: Seq<char>,
    post_down: Seq<char>,
) -> Result<WgInterfaceView, WgConfErrorView> {
    if listen_port == 0 {
        Err(validation_failed(ZERO_PORT@))
    } else {
        Ok(WgInterfaceView { private_key, address, listen_port, post_up, post_down })
    }
}

/// What building a section from the text of its fields gives.
///
/// The key is read first, then the address, then the port: the first of them that
/// cannot be read decides the error.
pub open spec fn section_of_raw_values(
    private_key: Seq<char>,
    address: Seq<char>,
    listen_port: Seq<char>,
    post_up: Seq<char>,
    post_down: Seq<char>,
) -> Result<WgInterfaceView, WgConfErrorView> {
    match key_of_text(private_key) {
        Err(e) => Err(e),
        Ok(key) => match address_of_text(address) {
            None => Err(validation_failed(INVALID_ADDRESS@)),
            Some(cidr) => match port_of_text(listen_port) {
                None => Err(validation_failed(INVALID_PORT@)),
                Some(port) => section_of_values(key, cidr, port, post_up, post_down),
            },
        },
    }
}

/// What building a section from a mapping of field names to field texts gives.
///
/// Only the five field names of the section are looked up; a name that is absent
/// counts as the empty text.
pub open spec fn section_of_raw_key_values(fields: Map<Seq<char>, Seq<char>>) -> Result<
    WgInterfaceView,
    WgConfErrorView,
> {
    section_of_raw_values(
        raw_value(fields, PRIVATE_KEY@),
        raw_value(fields, ADDRESS@),
        raw_value(fields, LISTEN_PORT@),
        raw_value(fields, POST_UP@),
        raw_value(fields, POST_DOWN@),
    )
}

/// Whether `name` is one of the five field names of the section.
pub open spec fn is_field_name(name: Seq<char>) -> bool {
    name == PRIVATE_KEY@ || name == ADDRESS@ || name == LISTEN_PORT@ || name == POST_UP@ || name
        == POST_DOWN@
}

/// The five field names differ from one another.
pub proof fn lemma_field_names_differ()
    ensures
        PRIVATE_KEY@ != ADDRESS@,
        PRIVATE_KEY@ != LISTEN_PORT@,
        PRIVATE_KEY@ != POST_UP@,
        PRIVATE_KEY@ != POST_DOWN@,
        ADDRESS@ != LISTEN_PORT@,
        ADDRESS@ != POST_UP@,
        ADDRESS@ != POST_DOWN@,
        LISTEN_PORT@ != POST_UP@,
        LISTEN_PORT@ != POST_DOWN@,
        POST_UP@ != POST_DOWN@,
{
    reveal_strlit("PrivateKey");
    reveal_strlit("Address");
    reveal_strlit("ListenPort");
    reveal_strlit("PostUp");
    reveal_strlit("PostDown");
    assert(PRIVATE_KEY@.len() == 10);
    assert(ADDRESS@.len() == 7);
    assert(LISTEN_PORT@.len() == 10);
    assert(POST_UP@.len() == 6);
    assert(POST_DOWN@.len() == 8);
    assert(PRIVATE_KEY@[0] == 'P');
    assert(LISTEN_PORT@[0] == 'L');
}

/// Reading a section's own fields gives the section back.
///
/// For every section that obeys the rules and whose address text reads back as its
/// address, the mapping from the field names to the canonical text of each field builds
/// that same section.
pub proof fn lemma_raw_key_values_read_back(section: WgInterfaceView)
    requires
        section.wf(),
        address_of_text(ip_network_text(section.address)) == Some(section.address),
    ensures
        section_of_raw_key_values(section.raw_key_values()) == Ok::<
            WgInterfaceView,
            WgConfErrorView,
        >(section),
{
    lemma_field_names_differ();
    lemma_port_text_reads_back(section.listen_port);
}

/// A port of zero is refused, as number and as text.
///
/// Whatever the other fields hold, typed values with port 0 build no section; and where
/// the key and the address can be read, neither does the port text `0`. Both fail with
/// the same reason.
pub proof fn lemma_zero_port_rejected(
    private_key: Seq<char>,
    address: Seq<char>,
    cidr: Cidr,
    post_up: Seq<char>,
    post_down: Seq<char>,
)
    requires
        key_of_text(private_key) is Ok,
        address_of_text(address) is Some,
    ensures
        section_of_values(private_key, cidr, 0, post_up, post_down) == Err::<
            WgInterfaceView,
            WgConfErrorView,
        >(validation_failed(ZERO_PORT@)),
        section_of_raw_values(private_key, address, "0"@, post_up, post_down) == Err::<
            WgInterfaceView,
            WgConfErrorView,
        >(validation_failed(ZERO_PORT@)),
{
    reveal_strlit("0");
    let zero = "0"@;
    assert(zero.drop_last() =~= Seq::<char>::empty());
    assert(decimal_value(zero.drop_last()) == 0);
    assert(decimal_value(zero) == 0);
    assert(unsigned_digits(zero) == zero);
    assert(port_of_text(zero) == Some(0u16));
}

/// Address text that cannot be read is refused with one fixed reason.
///
/// Where the key can be read, address text that holds no `/`, or that the network
/// parser turns down, fails the validation with the hint on how to write an address,
/// whatever the port and the commands hold.
pub proof fn lemma_unreadable_address_rejected(
    private_key: Seq<char>,
    address: Seq<char>,
    listen_port: Seq<char>,
    post_up: Seq<char>,
    post_down: Seq<char>,
)
    requires
        key_of_text(private_key) is Ok,
        !address.contains('/') || ip_network_of_text(address) is None,
    ensures
        section_of_raw_values(private_key, address, listen_port, post_up, post_down) == Err::<
            WgInterfaceView,
            WgConfErrorView,
        >(validation_failed(INVALID_ADDRESS@)),
{
}

/// A field under a name that the section does not know changes nothing.
pub proof fn lemma_unknown_field_ignored(
    fields: Map<Seq<char>, Seq<char>>,
    name: Seq<char>,
    value: Seq<char>,
)
    requires
        !is_field_name(name),
    ensures
        section_of_raw_key_values(fields.insert(name, value)) == section_of_raw_key_values(fields),
{
}

/// Leaving a field out is the same as giving it the empty text.
pub proof fn lemma_absent_field_is_empty(fields: Map<Seq<char>, Seq<char>>, name: Seq<char>)
    ensures
        section_of_raw_key_values(fields.remove(name)) == section_of_raw_key_values(
            fields.insert(name, Seq::empty()),
        ),
{
}

/// Without a port field, and with a key and an address that can be read, the section is
/// refused because the empty text is no port.
pub proof fn lemma_absent_port_rejected(fields: Map<Seq<char>, Seq<char>>)
    requires
        key_of_text(raw_value(fields, PRIVATE_KEY@)) is Ok,
        address_of_text(raw_value(fields, ADDRESS@)) is Some,
        !fields.contains_key(LISTEN_PORT@),
    ensures
        section_of_raw_key_values(fields) == Err::<WgInterfaceView, WgConfErrorView>(
            validation_failed(INVALID_PORT@),
        ),
{
}

/// The `[Interface]` section of a configuration. Every value of this type obeys the
/// section's rules, and none can be changed once built.
#[derive(Debug, PartialEq, Eq)]
pub struct WgInterface {
    pub(crate) private_key: WgPrivateKey,
    pub(crate) address: WgAddress,
    pub(crate) listen_port: u16,
    pub(crate) post_up: String,
    pub(crate) post_down: String,
}

impl View for WgInterface {
    type V = WgInterfaceView;

    closed spec fn view(&self) -> WgInterfaceView {
        WgInterfaceView {
            private_key: self.private_key@,
            address: self.address@,
            listen_port: self.listen_port,
            post_up: self.post_up@,
            post_down: self.post_down@,
        }
    }
}

/// Whether `r` is the outcome `expected`, each side taken by its value.
pub open spec fn is_outcome(
    r: Result<WgInterface, WgConfError>,
    expected: Result<WgInterfaceView, WgConfErrorView>,
) -> bool {
    match r {
        Ok(section) => section.wf() && expected == Ok::<WgInterfaceView, WgConfErrorView>(section@),
        Err(e) => expected == Err::<WgInterfaceView, WgConfErrorView>(e@),
    }
}

/// Appends the line of one field to `text`.
fn append_field(text: &mut String, name: &str, value: &str)
    ensures
        final(text)@ == old(text)@ + field_line(name@, value@),
{
    text.append(name);
    text.append(" = ");
    text.append(value);
    text.append("\n");
    assert(text@ =~= old(text)@ + field_line(name@, value@));
}

impl Clone for WgInterface {
    fn clone(&self) -> (section: WgInterface)
        ensures
            section@ == self@,
    {
        proof {
            use_type_invariant(self);
        }
        WgInterface {
            private_key: self.private_key.clone(),
            address: self.address,
            listen_port: self.listen_port,
            post_up: self.post_up.clone(),
            post_down: self.post_down.clone(),
        }
    }
}

impl WgInterface {
    /// Whether the section obeys its rules. Holds of every section that exists.
    #[verifier::type_invariant]
    pub open spec fn wf(&self) -> bool {
        self@.wf()
    }

    /// Builds a section from typed values. The one thing left to check is the port,
    /// which must not be 0.
    pub fn new(
        private_key: WgPrivateKey,
        address: WgAddress,
        listen_port: u16,
        post_up: String,
        post_down: String,
    ) -> (r: Result<WgInterface, WgConfError>)
        ensures
            is_outcome(
                r,
                section_of_values(private_key@, address@, listen_port, post_up@, post_down@),
            ),
    {
        if listen_port == 0 {
            return Err(WgConfError::validation_failed(ZERO_PORT));
        }
        proof {
            use_type_invariant(&private_key);
            use_type_invariant(&address);
        }
        Ok(WgInterface { private_key, address, listen_port, post_up, post_down })
    }

    /// Builds a section from the text of each of its fields.
    ///
    /// The key is read first, then the address, then the port; the first that cannot be
    /// read decides the error. An unreadable key is reported with the key's own error,
    /// an unreadable address or port as a failed validation with a fixed reason.
    pub fn from_raw_values(
        private_key: String,
        address: String,
        listen_port: String,
        post_up: String,
        post_down: String,
    ) -> (r: Result<WgInterface, WgConfError>)
        ensures
            is_outcome(
                r,
                section_of_raw_values(
                    private_key@,
                    address@,
                    listen_port@,
                    post_up@,
                    post_down@,
                ),
            ),
    {
        let private_key = match WgPrivateKey::parse(private_key.as_str()) {
            Ok(key) => key,
            Err(e) => {
                return Err(e);
            },
        };
        let address = match WgAddress::parse(address.as_str()) {
            Some(address) => address,
            None => {
                return Err(WgConfError::validation_failed(INVALID_ADDRESS));
            },
        };
        let listen_port = match parse_port(listen_port.as_str()) {
            Some(port) => port,
            None => {
                return Err(WgConfError::validation_failed(INVALID_PORT));
            },
        };
        WgInterface::new(private_key, address, listen_port, post_up, post_down)
    }

    /// Builds a section from a mapping of field names to field texts.
    ///
    /// Names other than the section's five are passed over, and a name that is absent
    /// counts as the empty text.
    pub fn from_raw_key_values(raw_key_values: &RawKeyValues) -> (r: Result<
        WgInterface,
        WgConfError,
    >)
        ensures
            is_outcome(r, section_of_raw_key_values(raw_key_values@)),
    {
        let private_key = raw_key_values.value(PRIVATE_KEY);
        let address = raw_key_values.value(ADDRESS);
        let listen_port = raw_key_values.value(LISTEN_PORT);
        let post_up = raw_key_values.value(POST_UP);
        let post_down = raw_key_values.value(POST_DOWN);
        WgInterface::from_raw_values(private_key, address, listen_port, post_up, post_down)
    }

    /// The private key.
    pub fn private_key(&self) -> (key: &WgPrivateKey)
        ensures
            key@ == self@.private_key,
            key.wf(),
    {
        proof {
            use_type_invariant(self);
        }
        &self.private_key
    }

    /// The address.
    pub fn address(&self) -> (address: &WgAddress)
        ensures
            address@ == self@.address,
            address.wf(),
    {
        proof {
            use_type_invariant(self);
        }
        &self.address
    }

    /// The listen port, which is never 0.
    pub fn listen_port(&self) -> (port: u16)
        ensures
            port == self@.listen_port,
            port != 0,
    {
        proof {
            use_type_invariant(self);
        }
        self.listen_port
    }

    /// The command run after the interface comes up, as it was given.
    pub fn post_up(&self) -> (command: &str)
        ensures
            command@ == self@.post_up,
    {
        self.post_up.as_str()
    }

    /// The command run after the interface goes down, as it was given.
    pub fn post_down(&self) -> (command: &str)
        ensures
            command@ == self@.post_down,
    {
        self.post_down.as_str()
    }

    /// Writes the section as text: the header line, one line for each field, and a blank
    /// line at the end, so that the text closes with two line feeds.
    pub fn to_string(&self) -> (text: String)
        ensures
            text@ == self@.text(),
            ends_with_blank_line(text@),
            section_of_raw_key_values(self@.raw_key_values()) == Ok::<
                WgInterfaceView,
                WgConfErrorView,
            >(self@),
    {
        proof {
            use_type_invariant(self);
        }
        let key = self.private_key.to_string();
        let address = self.address.to_string();
        let port = port_to_string(self.listen_port);
        let mut text = String::from_str(TAG);
        text.append("\n");
        append_field(&mut text, PRIVATE_KEY, key.as_str());
        append_field(&mut text, ADDRESS, address.as_str());
        append_field(&mut text, LISTEN_PORT, port.as_str());
        append_field(&mut text, POST_UP, self.post_up.as_str());
        append_field(&mut text, POST_DOWN, self.post_down.as_str());
        text.append("\n");
        proof {
            lemma_raw_key_values_read_back(self@);
            lemma_text_ends_with_blank_line(self@);
        }
        text
    }
}

} // verus!
