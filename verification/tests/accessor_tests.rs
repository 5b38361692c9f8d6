use aes_config::ConfigError;
use aes_config::ConfigInfo;
use aes_config::ConfigType;

const KEY32: &str = "abcdefghijklmnopqrstuvwxyz123456";

#[derive(Debug, PartialEq)]
struct TestConfig {
    port: u16,
    name: String,
}

struct TestConfigVisitor;

impl<'de> serde::de::Visitor<'de> for TestConfigVisitor {
    type Value = TestConfig;

    fn expecting(&self, f: &mut std::fmt::Formatter) -> std::fmt::Result {
        f.write_str("a table with a port and a name")
    }

    fn visit_map<A: serde::de::MapAccess<'de>>(self, mut map: A) -> Result<TestConfig, A::Error> {
        let mut port: Option<u16> = None;
        let mut name: Option<String> = None;
        while let Some(key) = map.next_key::<String>()? {
            match key.as_str() {
                "port" => port = Some(map.next_value()?),
                "name" => name = Some(map.next_value()?),
                _ => return Err(serde::de::Error::unknown_field(&key, &["port", "name"])),
            }
        }
        Ok(TestConfig {
            port: port.ok_or_else(|| serde::de::Error::missing_field("port"))?,
            name: name.ok_or_else(|| serde::de::Error::missing_field("name"))?,
        })
    }
}

impl<'de> serde::Deserialize<'de> for TestConfig {
    fn deserialize<D: serde::Deserializer<'de>>(d: D) -> Result<TestConfig, D::Error> {
        d.deserialize_map(TestConfigVisitor)
    }
}

#[test]
fn key_of_31_bytes_is_rejected_before_any_file_is_touched() {
    let r = ConfigInfo::new(
        "config.toml".to_string(),
        Some("abcdefghijklmnopqrstuvwxyz12345".to_string()),
        ConfigType::TOML,
    );
    assert!(matches!(r, Err(ConfigError::SaltLenError)));
}

#[test]
fn key_of_33_bytes_is_rejected_before_any_file_is_touched() {
    let r = ConfigInfo::new(
        "config.toml".to_string(),
        Some("abcdefghijklmnopqrstuvwxyz1234567".to_string()),
        ConfigType::TOML,
    );
    assert!(matches!(r, Err(ConfigError::SaltLenError)));
}

#[test]
fn key_length_counts_bytes_not_characters() {
    // 32 characters, but more than 32 UTF-8 bytes.
    let salt = "abcdefghijklmnopqrstuvwxyz12345\u{e9}".to_string();
    assert_eq!(salt.chars().count(), 32);
    let r = ConfigInfo::new("config.toml".to_string(), Some(salt), ConfigType::TOML);
    assert!(matches!(r, Err(ConfigError::SaltLenError)));
}

#[test]
fn passthrough_returns_the_exact_file_text() {
    let c = ConfigInfo::new("config.toml".to_string(), None, ConfigType::TOML).unwrap();
    let contents = "port = 10086\nname = \"test\"\n";
    assert_eq!(c.try_decrypt_config(contents.to_string()).unwrap(), contents);
}

#[test]
fn encrypt_requires_key_material() {
    let c = ConfigInfo::new("config.toml".to_string(), None, ConfigType::TOML).unwrap();
    assert_eq!(c.try_encrypt_config("port = 1\n"), Err(ConfigError::SaltLenError));
}

#[test]
fn encrypt_then_decrypt_restores_the_exact_text() {
    let salt = KEY32.to_string();
    let c = ConfigInfo::new("config.toml".to_string(), Some(salt), ConfigType::TOML).unwrap();
    let plain = "key=\"value\"";
    let envelope = c.try_encrypt_config(plain).unwrap();
    assert_ne!(envelope, plain);
    assert_eq!(c.try_decrypt_config(envelope).unwrap(), plain);
}

#[test]
fn known_envelope_decrypts_to_a_typed_config() {
    let c = ConfigInfo::new(
        "encrypt_config.toml".to_string(),
        Some(KEY32.to_string()),
        ConfigType::TOML,
    )
    .unwrap();
    let envelope = "qOOX56hXnadNC5uHU36IgB1i/2OKgfgXz4PmDYmy683qUewVqsg=".to_string();
    let parsed: TestConfig = c.try_get_config(envelope).unwrap();
    assert_eq!(parsed, TestConfig { port: 10086, name: "test".to_string() });
}

#[test]
fn load_typed_parses_plaintext_toml() {
    let c = ConfigInfo::new("config.toml".to_string(), None, ConfigType::TOML).unwrap();
    let parsed: TestConfig = c.try_get_config("port = 10086\nname = \"test\"".to_string()).unwrap();
    assert_eq!(parsed, TestConfig { port: 10086, name: "test".to_string() });
}

#[test]
fn load_typed_with_json_fails_with_unsupported_format() {
    let c = ConfigInfo::new("config.json".to_string(), None, ConfigType::JSON).unwrap();
    let r: Result<TestConfig, ConfigError> =
        c.try_get_config("port = 10086\nname = \"test\"".to_string());
    assert_eq!(r, Err(ConfigError::UnsupportedConfigType));
}

#[test]
fn load_typed_with_ini_fails_with_unsupported_format() {
    let c = ConfigInfo::new("config.ini".to_string(), None, ConfigType::INI).unwrap();
    let r: Result<TestConfig, ConfigError> =
        c.try_get_config("port = 10086\nname = \"test\"".to_string());
    assert_eq!(r, Err(ConfigError::UnsupportedConfigType));
}

#[test]
fn malformed_toml_is_a_parse_error() {
    let c = ConfigInfo::new("config.toml".to_string(), None, ConfigType::TOML).unwrap();
    let r: Result<TestConfig, ConfigError> = c.try_get_config("port = = 1".to_string());
    assert_eq!(r, Err(ConfigError::TomlError));
}

#[test]
fn toml_missing_a_required_field_is_a_parse_error() {
    let c = ConfigInfo::new("config.toml".to_string(), None, ConfigType::TOML).unwrap();
    let r: Result<TestConfig, ConfigError> = c.try_get_config("port = 10086".to_string());
    assert_eq!(r, Err(ConfigError::TomlError));
}

#[test]
fn decrypted_bytes_must_be_valid_text() {
    let key: [u8; 32] = KEY32.as_bytes().try_into().unwrap();
    let envelope = aes_config::encrypt_config(&[0xff, 0xfe, 0x00, 0x80], &key).unwrap();
    let c = ConfigInfo::new(
        "config.toml".to_string(),
        Some(KEY32.to_string()),
        ConfigType::TOML,
    )
    .unwrap();
    assert_eq!(c.try_decrypt_config(envelope), Err(ConfigError::StringFromUtf8Error));
}

#[test]
fn decrypt_with_key_rejects_plaintext_files() {
    let c = ConfigInfo::new(
        "config.toml".to_string(),
        Some(KEY32.to_string()),
        ConfigType::TOML,
    )
    .unwrap();
    // Plain TOML text is not valid base64.
    let r = c.try_decrypt_config("port = 10086\nname = \"test\"\n".to_string());
    assert_eq!(r, Err(ConfigError::Base64Error));
}

#[test]
fn format_names_parse_to_their_tags() {
    assert!(matches!(ConfigType::from_name("toml"), Ok(ConfigType::TOML)));
    assert!(matches!(ConfigType::from_name("json"), Ok(ConfigType::JSON)));
    assert!(matches!(ConfigType::from_name("ini"), Ok(ConfigType::INI)));
    assert!(matches!("toml".parse::<ConfigType>(), Ok(ConfigType::TOML)));
}

#[test]
fn unknown_format_name_is_reported_with_the_name() {
    match ConfigType::from_name("yaml") {
        Err(ConfigError::UnknownConfigType(name)) => assert_eq!(name, "yaml"),
        other => panic!("unexpected result: {:?}", other),
    }
}
