//! A Kotlin `KSerializer` object put together from its parts.

use vstd::prelude::*;
use vstd::string::*;

use crate::text::{indented, indent_text};

verus! {

/// A serializer object for a target class.
#[derive(Debug)]
pub struct KSerializer {
    /// The class it serializes.
    pub target_name: String,
    /// The name of the object.
    pub serializer_name: String,
    /// The body of `serialize`, indented.
    pub serialize_body: String,
    /// The body of `deserialize`, indented.
    pub deserialize_body: String,
    /// The descriptor expression.
    pub descriptor: String,
    /// Further members, indented.
    pub additional_members: String,
}

/// `text` indented one level.
pub open spec fn once(text: Seq<char>) -> Seq<char> {
    indent_text(text, "    "@, true)
}

/// `text` indented two levels.
pub open spec fn twice(text: Seq<char>) -> Seq<char> {
    once(once(text))
}

/// The Kotlin source of a serializer object.
pub open spec fn kserializer_text(k: KSerializer) -> Seq<char> {
    kserializer_parts_text(
        k.serializer_name@,
        k.target_name@,
        k.additional_members@,
        k.descriptor@,
        k.serialize_body@,
        k.deserialize_body@,
    )
}

/// A serializer object made of these parts.
pub open spec fn kserializer_parts_text(
    serializer_name: Seq<char>,
    target_name: Seq<char>,
    additional_members: Seq<char>,
    descriptor: Seq<char>,
    serialize_body: Seq<char>,
    deserialize_body: Seq<char>,
) -> Seq<char> {
    "object "@ + serializer_name + " : KSerializer<"@ + target_name + "> {\n"@
        + additional_members + "\n"@ + once(
        "override val descriptor: SerialDescriptor = "@ + descriptor + "\n"@,
    ) + "    override fun serialize(encoder: Encoder, value: "@ + target_name + ") {\n"@
        + serialize_body + "\n    }\n\n    override fun deserialize(decoder: Decoder): "@
        + target_name + " {\n"@ + deserialize_body + "\n    }\n}\n"@
}

impl KSerializer {
    /// An empty serializer for `target_name`.
    pub fn new(target_name: &str) -> (r: KSerializer)
        ensures
            r.target_name@ == target_name@,
            r.serializer_name@ == target_name@ + "Serializer"@,
            r.serialize_body@ == Seq::<char>::empty(),
            r.deserialize_body@ == Seq::<char>::empty(),
            r.descriptor@ == Seq::<char>::empty(),
            r.additional_members@ == Seq::<char>::empty(),
    {
        let mut serializer_name = target_name.to_string();
        serializer_name.append("Serializer");
        KSerializer {
            target_name: target_name.to_string(),
            serialize_body: String::new(),
            deserialize_body: String::new(),
            serializer_name,
            descriptor: String::new(),
            additional_members: String::new(),
        }
    }

    /// Sets the descriptor expression.
    pub fn descriptor(&mut self, descriptor: &str)
        ensures
            final(self).descriptor@ == descriptor@,
            final(self).target_name == old(self).target_name,
            final(self).serializer_name == old(self).serializer_name,
            final(self).serialize_body == old(self).serialize_body,
            final(self).deserialize_body == old(self).deserialize_body,
            final(self).additional_members == old(self).additional_members,
    {
        self.descriptor = descriptor.to_string();
    }

    /// This serializer with the given descriptor expression.
    pub fn with_descriptor(self, descriptor: &str) -> (r: KSerializer)
        ensures
            r.descriptor@ == descriptor@,
            r.target_name == self.target_name,
            r.serializer_name == self.serializer_name,
            r.serialize_body == self.serialize_body,
            r.deserialize_body == self.deserialize_body,
            r.additional_members == self.additional_members,
    {
        let mut this = self;
        this.descriptor(descriptor);
        this
    }

    /// Adds to the body of `serialize`, indented two levels.
    pub fn serialize_body(&mut self, serialize_body: &str)
        ensures
            final(self).serialize_body@ == old(self).serialize_body@ + twice(serialize_body@),
            final(self).target_name == old(self).target_name,
            final(self).serializer_name == old(self).serializer_name,
            final(self).descriptor == old(self).descriptor,
            final(self).deserialize_body == old(self).deserialize_body,
            final(self).additional_members == old(self).additional_members,
    {
        let once = indented(serialize_body, "    ");
        self.serialize_body.append(indented(once.as_str(), "    ").as_str());
    }

    /// This serializer with more `serialize` body.
    pub fn with_serialize_body(self, serialize_body: &str) -> (r: KSerializer)
        ensures
            r.serialize_body@ == self.serialize_body@ + twice(serialize_body@),
            r.target_name == self.target_name,
            r.serializer_name == self.serializer_name,
            r.descriptor == self.descriptor,
            r.deserialize_body == self.deserialize_body,
            r.additional_members == self.additional_members,
    {
        let mut this = self;
        this.serialize_body(serialize_body);
        this
    }

    /// Adds to the body of `deserialize`, indented two levels.
    pub fn deserialize_body(&mut self, deserialize_body: &str)
        ensures
            final(self).deserialize_body@ == old(self).deserialize_body@ + twice(
                deserialize_body@,
            ),
            final(self).target_name == old(self).target_name,
            final(self).serializer_name == old(self).serializer_name,
            final(self).descriptor == old(self).descriptor,
            final(self).serialize_body == old(self).serialize_body,
            final(self).additional_members == old(self).additional_members,
    {
        let once = indented(deserialize_body, "    ");
        self.deserialize_body.append(indented(once.as_str(), "    ").as_str());
    }

    /// This serializer with more `deserialize` body.
    pub fn with_deserialize_body(self, deserialize_body: &str) -> (r: KSerializer)
        ensures
            r.deserialize_body@ == self.deserialize_body@ + twice(deserialize_body@),
            r.target_name == self.target_name,
            r.serializer_name == self.serializer_name,
            r.descriptor == self.descriptor,
            r.serialize_body == self.serialize_body,
            r.additional_members == self.additional_members,
    {
        let mut this = self;
        this.deserialize_body(deserialize_body);
        this
    }

    /// Adds members, indented one level.
    pub fn additional_members(&mut self, additional_members: &str)
        ensures
            final(self).additional_members@ == old(self).additional_members@ + once(
                additional_members@,
            ),
            final(self).target_name == old(self).target_name,
            final(self).serializer_name == old(self).serializer_name,
            final(self).descriptor == old(self).descriptor,
            final(self).serialize_body == old(self).serialize_body,
            final(self).deserialize_body == old(self).deserialize_body,
    {
        self.additional_members.append(indented(additional_members, "    ").as_str());
    }

    /// This serializer with more members.
    pub fn with_additional_members(self, additional_members: &str) -> (r: KSerializer)
        ensures
            r.additional_members@ == self.additional_members@ + once(additional_members@),
            r.target_name == self.target_name,
            r.serializer_name == self.serializer_name,
            r.descriptor == self.descriptor,
            r.serialize_body == self.serialize_body,
            r.deserialize_body == self.deserialize_body,
    {
        let mut this = self;
        this.additional_members(additional_members);
        this
    }

    /// The Kotlin source of this serializer object.
    pub fn render(&self) -> (r: String)
        ensures
            r@ == kserializer_text(*self),
    {
        let mut s = String::from_str("object ");
        s.append(self.serializer_name.as_str());
        s.append(" : KSerializer<");
        s.append(self.target_name.as_str());
        s.append("> {\n");
        s.append(self.additional_members.as_str());
        s.append("\n");
        let mut descriptor = String::from_str("override val descriptor: SerialDescriptor = ");
        descriptor.append(self.descriptor.as_str());
        descriptor.append("\n");
        s.append(indented(descriptor.as_str(), "    ").as_str());
        s.append("    override fun serialize(encoder: Encoder, value: ");
        s.append(self.target_name.as_str());
        s.append(") {\n");
        s.append(self.serialize_body.as_str());
        s.append("\n    }\n\n    override fun deserialize(decoder: Decoder): ");
        s.append(self.target_name.as_str());
        s.append(" {\n");
        s.append(self.deserialize_body.as_str());
        s.append("\n    }\n}\n");
        s
    }
}

} // verus!
