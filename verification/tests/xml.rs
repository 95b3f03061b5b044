use interfacer_http::content::{from_content, to_content, ContentTag, ReadFormat, WriteFormat};
use interfacer_http::error::{FromContentError, ToContentError};
use interfacer_http::mime::MimeType;
use serde::ser::{Serialize, SerializeStruct, Serializer};
use std::collections::BTreeMap;

#[derive(Debug, PartialEq, Clone)]
struct Person {
    name: String,
    age: u32,
}

impl Serialize for Person {
    fn serialize<S: Serializer>(&self, serializer: S) -> Result<S::Ok, S::Error> {
        let mut person = serializer.serialize_struct("Person", 2)?;
        person.serialize_field("name", &self.name)?;
        person.serialize_field("age", &self.age)?;
        person.end()
    }
}

fn person_of(fields: BTreeMap<String, String>) -> Result<Person, String> {
    let name = fields.get("name").ok_or("missing field `name`")?.clone();
    let age = fields
        .get("age")
        .ok_or("missing field `age`")?
        .parse::<u32>()
        .map_err(|e| e.to_string())?;
    Ok(Person { name, age })
}

/// The XML codec for `Person`.
struct PersonXml;

impl WriteFormat<Person> for PersonXml {
    fn writes() -> ContentTag {
        ContentTag::Xml
    }

    fn write_bytes(value: &Person) -> Result<Vec<u8>, String> {
        let mut data = Vec::new();
        serde_xml_rs::to_writer(&mut data, value).map_err(|e| e.to_string())?;
        Ok(data)
    }

    fn write_text(value: &Person) -> Result<String, String> {
        serde_xml_rs::to_string(value).map_err(|e| e.to_string())
    }

}

impl ReadFormat<Person> for PersonXml {
    fn reads() -> ContentTag {
        ContentTag::Xml
    }

    fn read_bytes(data: &[u8]) -> Result<Person, String> {
        person_of(serde_xml_rs::from_reader(data).map_err(|e| e.to_string())?)
    }

    fn read_text(text: &str) -> Result<Person, String> {
        person_of(serde_xml_rs::from_str(text).map_err(|e| e.to_string())?)
    }
}

fn mime(raw: &str) -> MimeType {
    MimeType::parse(raw).unwrap()
}

fn joe() -> Person {
    Person {
        name: "Joé".to_string(),
        age: 42,
    }
}

#[test]
fn xml_round_trip_utf8() {
    for raw in ["application/xml", "text/xml", "text/xml; charset=utf-8"] {
        let content_type = mime(raw);
        let body = to_content::<Person, PersonXml>(&joe(), &content_type).unwrap();
        let text = String::from_utf8(body.clone()).unwrap();
        assert!(text.ends_with("<Person><name>Joé</name><age>42</age></Person>"), "{}", text);
        assert_eq!(from_content::<Person, PersonXml>(&body, &content_type).unwrap(), joe());
    }
}

#[test]
fn xml_in_another_charset() {
    let content_type = mime("application/xml; charset=windows-1252");
    let body = to_content::<Person, PersonXml>(&joe(), &content_type).unwrap();
    assert!(body.contains(&0xe9));
    assert!(String::from_utf8(body.clone()).is_err());
    assert_eq!(from_content::<Person, PersonXml>(&body, &content_type).unwrap(), joe());
}

#[test]
fn xml_failures_stay_apart() {
    let err = from_content::<Person, PersonXml>(b"<Person><name>x</name>", &mime("text/xml")).unwrap_err();
    assert!(matches!(err, FromContentError::Codec(_)));
    let err = from_content::<Person, PersonXml>(
        b"<Person><name>x</name></Person>",
        &mime("text/xml"),
    )
    .unwrap_err();
    match err {
        FromContentError::Codec(message) => assert_eq!(message, "missing field `age`"),
        other => panic!("{:?}", other),
    }
    let err = from_content::<Person, PersonXml>(b"<Person/>", &mime("application/json")).unwrap_err();
    assert!(matches!(err, FromContentError::UnsupportedContentType));
    let err = to_content::<Person, PersonXml>(&joe(), &mime("text/html")).unwrap_err();
    assert!(matches!(err, ToContentError::UnsupportedContentType));
    let err = to_content::<Person, PersonXml>(&joe(), &mime("text/xml; charset=latin1")).unwrap_err();
    assert!(matches!(err, ToContentError::UnsupportedCharset));
    let err = to_content::<Person, PersonXml>(&joe(), &mime("text/xml; charset=ascii")).unwrap_err();
    assert!(matches!(err, ToContentError::Encode(_)));
}

#[test]
fn xml_blanks_around_text_are_lost() {
    let person = Person {
        name: " a ".to_string(),
        age: 1,
    };
    let content_type = mime("text/xml");
    let body = to_content::<Person, PersonXml>(&person, &content_type).unwrap();
    assert!(String::from_utf8(body.clone())
        .unwrap()
        .ends_with("<Person><name> a </name><age>1</age></Person>"));
    let back = from_content::<Person, PersonXml>(&body, &content_type).unwrap();
    assert_eq!(
        back,
        Person {
            name: "a".to_string(),
            age: 1,
        }
    );
}
