//! The messages and enumerations of the wire schema, as plain values. An
//! enumeration travels as its number; its name is the one of the schema.

use crate::text::same_text;
use vstd::prelude::*;

verus! {

/// The largest data that is signed or verified: one mebibyte.
pub const MAX_DATA_LEN: usize = 1048576;

/// The health of a service.
#[derive(Debug, Clone, Copy, PartialEq, Eq, Structural, Hash)]
pub enum ServingStatus {
    Unknown,
    Serving,
    NotServing,
    ServiceUnknown,
}

impl ServingStatus {
    /// The number that stands for the value on the wire.
    pub open spec fn number(self) -> i32 {
        match self {
            ServingStatus::Unknown => 0,
            ServingStatus::Serving => 1,
            ServingStatus::NotServing => 2,
            ServingStatus::ServiceUnknown => 3,
        }
    }

    /// The value that a number stands for, if it stands for one.
    pub open spec fn of_number(number: i32) -> Option<Self> {
        if number == 0 {
            Some(ServingStatus::Unknown)
        } else if number == 1 {
            Some(ServingStatus::Serving)
        } else if number == 2 {
            Some(ServingStatus::NotServing)
        } else if number == 3 {
            Some(ServingStatus::ServiceUnknown)
        } else {
            None
        }
    }

    /// The name of the value in the schema.
    pub open spec fn name(self) -> Seq<char> {
        match self {
            ServingStatus::Unknown => "UNKNOWN"@,
            ServingStatus::Serving => "SERVING"@,
            ServingStatus::NotServing => "NOT_SERVING"@,
            ServingStatus::ServiceUnknown => "SERVICE_UNKNOWN"@,
        }
    }

    /// The value that a name of the schema stands for, if it stands for
    /// one.
    pub open spec fn of_name(name: Seq<char>) -> Option<Self> {
        if name == "UNKNOWN"@ {
            Some(ServingStatus::Unknown)
        } else if name == "SERVING"@ {
            Some(ServingStatus::Serving)
        } else if name == "NOT_SERVING"@ {
            Some(ServingStatus::NotServing)
        } else if name == "SERVICE_UNKNOWN"@ {
            Some(ServingStatus::ServiceUnknown)
        } else {
            None
        }
    }

    pub fn as_i32(self) -> (number: i32)
        ensures
            number == self.number(),
    {
        match self {
            ServingStatus::Unknown => 0,
            ServingStatus::Serving => 1,
            ServingStatus::NotServing => 2,
            ServingStatus::ServiceUnknown => 3,
        }
    }

    pub fn from_i32(number: i32) -> (value: Option<Self>)
        ensures
            value == Self::of_number(number),
    {
        match number {
            0 => Some(ServingStatus::Unknown),
            1 => Some(ServingStatus::Serving),
            2 => Some(ServingStatus::NotServing),
            3 => Some(ServingStatus::ServiceUnknown),
            _ => None,
        }
    }

    pub fn as_str_name(&self) -> (name: &'static str)
        ensures
            name@ == self.name(),
    {
        match self {
            ServingStatus::Unknown => "UNKNOWN",
            ServingStatus::Serving => "SERVING",
            ServingStatus::NotServing => "NOT_SERVING",
            ServingStatus::ServiceUnknown => "SERVICE_UNKNOWN",
        }
    }

    pub fn from_str_name(value: &str) -> (found: Option<Self>)
        ensures
            found == Self::of_name(value@),
    {
        if same_text(value, "UNKNOWN") {
            Some(ServingStatus::Unknown)
        } else if same_text(value, "SERVING") {
            Some(ServingStatus::Serving)
        } else if same_text(value, "NOT_SERVING") {
            Some(ServingStatus::NotServing)
        } else if same_text(value, "SERVICE_UNKNOWN") {
            Some(ServingStatus::ServiceUnknown)
        } else {
            None
        }
    }

    /// Every value is the value of its number and of its name.
    pub proof fn lemma_round_trip(self)
        ensures
            Self::of_number(self.number()) == Some(self),
            Self::of_name(self.name()) == Some(self),
    {
        reveal_strlit("UNKNOWN");
        reveal_strlit("SERVING");
        reveal_strlit("NOT_SERVING");
        reveal_strlit("SERVICE_UNKNOWN");
        assert("UNKNOWN"@[0] != "SERVING"@[0]);
        assert("UNKNOWN"@.len() != "NOT_SERVING"@.len());
        assert("UNKNOWN"@.len() != "SERVICE_UNKNOWN"@.len());
        assert("SERVING"@.len() != "NOT_SERVING"@.len());
        assert("SERVING"@.len() != "SERVICE_UNKNOWN"@.len());
        assert("NOT_SERVING"@.len() != "SERVICE_UNKNOWN"@.len());
    }
}

/// The key types of the wire schema.
#[derive(Debug, Clone, Copy, PartialEq, Eq, Structural, Hash)]
pub enum KeyType {
    Unspecified,
    Rsa2048,
    Rsa3072,
    Rsa4096,
    EccP256,
    EccP384,
    EccP521,
}

impl KeyType {
    /// The number that stands for the value on the wire.
    pub open spec fn number(self) -> i32 {
        match self {
            KeyType::Unspecified => 0,
            KeyType::Rsa2048 => 1,
            KeyType::Rsa3072 => 2,
            KeyType::Rsa4096 => 3,
            KeyType::EccP256 => 4,
            KeyType::EccP384 => 5,
            KeyType::EccP521 => 6,
        }
    }

    /// The value that a number stands for, if it stands for one.
    pub open spec fn of_number(number: i32) -> Option<Self> {
        if number == 0 {
            Some(KeyType::Unspecified)
        } else if number == 1 {
            Some(KeyType::Rsa2048)
        } else if number == 2 {
            Some(KeyType::Rsa3072)
        } else if number == 3 {
            Some(KeyType::Rsa4096)
        } else if number == 4 {
            Some(KeyType::EccP256)
        } else if number == 5 {
            Some(KeyType::EccP384)
        } else if number == 6 {
            Some(KeyType::EccP521)
        } else {
            None
        }
    }

    /// The name of the value in the schema.
    pub open spec fn name(self) -> Seq<char> {
        match self {
            KeyType::Unspecified => "KEY_TYPE_UNSPECIFIED"@,
            KeyType::Rsa2048 => "KEY_TYPE_RSA_2048"@,
            KeyType::Rsa3072 => "KEY_TYPE_RSA_3072"@,
            KeyType::Rsa4096 => "KEY_TYPE_RSA_4096"@,
            KeyType::EccP256 => "KEY_TYPE_ECC_P256"@,
            KeyType::EccP384 => "KEY_TYPE_ECC_P384"@,
            KeyType::EccP521 => "KEY_TYPE_ECC_P521"@,
        }
    }

    /// The value that a name of the schema stands for, if it stands for
    /// one.
    pub open spec fn of_name(name: Seq<char>) -> Option<Self> {
        if name == "KEY_TYPE_UNSPECIFIED"@ {
            Some(KeyType::Unspecified)
        } else if name == "KEY_TYPE_RSA_2048"@ {
            Some(KeyType::Rsa2048)
        } else if name == "KEY_TYPE_RSA_3072"@ {
            Some(KeyType::Rsa3072)
        } else if name == "KEY_TYPE_RSA_4096"@ {
            Some(KeyType::Rsa4096)
        } else if name == "KEY_TYPE_ECC_P256"@ {
            Some(KeyType::EccP256)
        } else if name == "KEY_TYPE_ECC_P384"@ {
            Some(KeyType::EccP384)
        } else if name == "KEY_TYPE_ECC_P521"@ {
            Some(KeyType::EccP521)
        } else {
            None
        }
    }

    pub fn as_i32(self) -> (number: i32)
        ensures
            number == self.number(),
    {
        match self {
            KeyType::Unspecified => 0,
            KeyType::Rsa2048 => 1,
            KeyType::Rsa3072 => 2,
            KeyType::Rsa4096 => 3,
            KeyType::EccP256 => 4,
            KeyType::EccP384 => 5,
            KeyType::EccP521 => 6,
        }
    }

    pub fn from_i32(number: i32) -> (value: Option<Self>)
        ensures
            value == Self::of_number(number),
    {
        match number {
            0 => Some(KeyType::Unspecified),
            1 => Some(KeyType::Rsa2048),
            2 => Some(KeyType::Rsa3072),
            3 => Some(KeyType::Rsa4096),
            4 => Some(KeyType::EccP256),
            5 => Some(KeyType::EccP384),
            6 => Some(KeyType::EccP521),
            _ => None,
        }
    }

    pub fn as_str_name(&self) -> (name: &'static str)
        ensures
            name@ == self.name(),
    {
        match self {
            KeyType::Unspecified => "KEY_TYPE_UNSPECIFIED",
            KeyType::Rsa2048 => "KEY_TYPE_RSA_2048",
            KeyType::Rsa3072 => "KEY_TYPE_RSA_3072",
            KeyType::Rsa4096 => "KEY_TYPE_RSA_4096",
            KeyType::EccP256 => "KEY_TYPE_ECC_P256",
            KeyType::EccP384 => "KEY_TYPE_ECC_P384",
            KeyType::EccP521 => "KEY_TYPE_ECC_P521",
        }
    }

    pub fn from_str_name(value: &str) -> (found: Option<Self>)
        ensures
            found == Self::of_name(value@),
    {
        if same_text(value, "KEY_TYPE_UNSPECIFIED") {
            Some(KeyType::Unspecified)
        } else if same_text(value, "KEY_TYPE_RSA_2048") {
            Some(KeyType::Rsa2048)
        } else if same_text(value, "KEY_TYPE_RSA_3072") {
            Some(KeyType::Rsa3072)
        } else if same_text(value, "KEY_TYPE_RSA_4096") {
            Some(KeyType::Rsa4096)
        } else if same_text(value, "KEY_TYPE_ECC_P256") {
            Some(KeyType::EccP256)
        } else if same_text(value, "KEY_TYPE_ECC_P384") {
            Some(KeyType::EccP384)
        } else if same_text(value, "KEY_TYPE_ECC_P521") {
            Some(KeyType::EccP521)
        } else {
            None
        }
    }

    /// Every value is the value of its number and of its name.
    pub proof fn lemma_round_trip(self)
        ensures
            Self::of_number(self.number()) == Some(self),
            Self::of_name(self.name()) == Some(self),
    {
        reveal_strlit("KEY_TYPE_UNSPECIFIED");
        reveal_strlit("KEY_TYPE_RSA_2048");
        reveal_strlit("KEY_TYPE_RSA_3072");
        reveal_strlit("KEY_TYPE_RSA_4096");
        reveal_strlit("KEY_TYPE_ECC_P256");
        reveal_strlit("KEY_TYPE_ECC_P384");
        reveal_strlit("KEY_TYPE_ECC_P521");
        assert("KEY_TYPE_UNSPECIFIED"@.len() != "KEY_TYPE_RSA_2048"@.len());
        assert("KEY_TYPE_UNSPECIFIED"@.len() != "KEY_TYPE_RSA_3072"@.len());
        assert("KEY_TYPE_UNSPECIFIED"@.len() != "KEY_TYPE_RSA_4096"@.len());
        assert("KEY_TYPE_UNSPECIFIED"@.len() != "KEY_TYPE_ECC_P256"@.len());
        assert("KEY_TYPE_UNSPECIFIED"@.len() != "KEY_TYPE_ECC_P384"@.len());
        assert("KEY_TYPE_UNSPECIFIED"@.len() != "KEY_TYPE_ECC_P521"@.len());
        assert("KEY_TYPE_RSA_2048"@[13] != "KEY_TYPE_RSA_3072"@[13]);
        assert("KEY_TYPE_RSA_2048"@[13] != "KEY_TYPE_RSA_4096"@[13]);
        assert("KEY_TYPE_RSA_2048"@[9] != "KEY_TYPE_ECC_P256"@[9]);
        assert("KEY_TYPE_RSA_2048"@[9] != "KEY_TYPE_ECC_P384"@[9]);
        assert("KEY_TYPE_RSA_2048"@[9] != "KEY_TYPE_ECC_P521"@[9]);
        assert("KEY_TYPE_RSA_3072"@[13] != "KEY_TYPE_RSA_4096"@[13]);
        assert("KEY_TYPE_RSA_3072"@[9] != "KEY_TYPE_ECC_P256"@[9]);
        assert("KEY_TYPE_RSA_3072"@[9] != "KEY_TYPE_ECC_P384"@[9]);
        assert("KEY_TYPE_RSA_3072"@[9] != "KEY_TYPE_ECC_P521"@[9]);
        assert("KEY_TYPE_RSA_4096"@[9] != "KEY_TYPE_ECC_P256"@[9]);
        assert("KEY_TYPE_RSA_4096"@[9] != "KEY_TYPE_ECC_P384"@[9]);
        assert("KEY_TYPE_RSA_4096"@[9] != "KEY_TYPE_ECC_P521"@[9]);
        assert("KEY_TYPE_ECC_P256"@[14] != "KEY_TYPE_ECC_P384"@[14]);
        assert("KEY_TYPE_ECC_P256"@[14] != "KEY_TYPE_ECC_P521"@[14]);
        assert("KEY_TYPE_ECC_P384"@[14] != "KEY_TYPE_ECC_P521"@[14]);
    }
}

/// The signature schemes of the wire schema.
#[derive(Debug, Clone, Copy, PartialEq, Eq, Structural, Hash)]
pub enum SigningAlgorithm {
    Unspecified,
    RsaPssSha256,
    RsaPssSha384,
    RsaPssSha512,
    RsaPkcs1Sha256,
    RsaPkcs1Sha384,
    RsaPkcs1Sha512,
    EcdsaSha256,
    EcdsaSha384,
    EcdsaSha512,
}

impl SigningAlgorithm {
    /// The number that stands for the value on the wire.
    pub open spec fn number(self) -> i32 {
        match self {
            SigningAlgorithm::Unspecified => 0,
            SigningAlgorithm::RsaPssSha256 => 1,
            SigningAlgorithm::RsaPssSha384 => 2,
            SigningAlgorithm::RsaPssSha512 => 3,
            SigningAlgorithm::RsaPkcs1Sha256 => 4,
            SigningAlgorithm::RsaPkcs1Sha384 => 5,
            SigningAlgorithm::RsaPkcs1Sha512 => 6,
            SigningAlgorithm::EcdsaSha256 => 7,
            SigningAlgorithm::EcdsaSha384 => 8,
            SigningAlgorithm::EcdsaSha512 => 9,
        }
    }

    /// The value that a number stands for, if it stands for one.
    pub open spec fn of_number(number: i32) -> Option<Self> {
        if number == 0 {
            Some(SigningAlgorithm::Unspecified)
        } else if number == 1 {
            Some(SigningAlgorithm::RsaPssSha256)
        } else if number == 2 {
            Some(SigningAlgorithm::RsaPssSha384)
        } else if number == 3 {
            Some(SigningAlgorithm::RsaPssSha512)
        } else if number == 4 {
            Some(SigningAlgorithm::RsaPkcs1Sha256)
        } else if number == 5 {
            Some(SigningAlgorithm::RsaPkcs1Sha384)
        } else if number == 6 {
            Some(SigningAlgorithm::RsaPkcs1Sha512)
        } else if number == 7 {
            Some(SigningAlgorithm::EcdsaSha256)
        } else if number == 8 {
            Some(SigningAlgorithm::EcdsaSha384)
        } else if number == 9 {
            Some(SigningAlgorithm::EcdsaSha512)
        } else {
            None
        }
    }

    /// The name of the value in the schema.
    pub open spec fn name(self) -> Seq<char> {
        match self {
            SigningAlgorithm::Unspecified => "SIGNING_ALGORITHM_UNSPECIFIED"@,
            SigningAlgorithm::RsaPssSha256 => "SIGNING_ALGORITHM_RSA_PSS_SHA256"@,
            SigningAlgorithm::RsaPssSha384 => "SIGNING_ALGORITHM_RSA_PSS_SHA384"@,
            SigningAlgorithm::RsaPssSha512 => "SIGNING_ALGORITHM_RSA_PSS_SHA512"@,
            SigningAlgorithm::RsaPkcs1Sha256 => "SIGNING_ALGORITHM_RSA_PKCS1_SHA256"@,
            SigningAlgorithm::RsaPkcs1Sha384 => "SIGNING_ALGORITHM_RSA_PKCS1_SHA384"@,
            SigningAlgorithm::RsaPkcs1Sha512 => "SIGNING_ALGORITHM_RSA_PKCS1_SHA512"@,
            SigningAlgorithm::EcdsaSha256 => "SIGNING_ALGORITHM_ECDSA_SHA256"@,
            SigningAlgorithm::EcdsaSha384 => "SIGNING_ALGORITHM_ECDSA_SHA384"@,
            SigningAlgorithm::EcdsaSha512 => "SIGNING_ALGORITHM_ECDSA_SHA512"@,
        }
    }

    /// The value that a name of the schema stands for, if it stands for
    /// one.
    pub open spec fn of_name(name: Seq<char>) -> Option<Self> {
        if name == "SIGNING_ALGORITHM_UNSPECIFIED"@ {
            Some(SigningAlgorithm::Unspecified)
        } else if name == "SIGNING_ALGORITHM_RSA_PSS_SHA256"@ {
            Some(SigningAlgorithm::RsaPssSha256)
        } else if name == "SIGNING_ALGORITHM_RSA_PSS_SHA384"@ {
            Some(SigningAlgorithm::RsaPssSha384)
        } else if name == "SIGNING_ALGORITHM_RSA_PSS_SHA512"@ {
            Some(SigningAlgorithm::RsaPssSha512)
        } else if name == "SIGNING_ALGORITHM_RSA_PKCS1_SHA256"@ {
            Some(SigningAlgorithm::RsaPkcs1Sha256)
        } else if name == "SIGNING_ALGORITHM_RSA_PKCS1_SHA384"@ {
            Some(SigningAlgorithm::RsaPkcs1Sha384)
        } else if name == "SIGNING_ALGORITHM_RSA_PKCS1_SHA512"@ {
            Some(SigningAlgorithm::RsaPkcs1Sha512)
        } else if name == "SIGNING_ALGORITHM_ECDSA_SHA256"@ {
            Some(SigningAlgorithm::EcdsaSha256)
        } else if name == "SIGNING_ALGORITHM_ECDSA_SHA384"@ {
            Some(SigningAlgorithm::EcdsaSha384)
        } else if name == "SIGNING_ALGORITHM_ECDSA_SHA512"@ {
            Some(SigningAlgorithm::EcdsaSha512)
        } else {
            None
        }
    }

    pub fn as_i32(self) -> (number: i32)
        ensures
            number == self.number(),
    {
        match self {
            SigningAlgorithm::Unspecified => 0,
            SigningAlgorithm::RsaPssSha256 => 1,
            SigningAlgorithm::RsaPssSha384 => 2,
            SigningAlgorithm::RsaPssSha512 => 3,
            SigningAlgorithm::RsaPkcs1Sha256 => 4,
            SigningAlgorithm::RsaPkcs1Sha384 => 5,
            SigningAlgorithm::RsaPkcs1Sha512 => 6,
            SigningAlgorithm::EcdsaSha256 => 7,
            SigningAlgorithm::EcdsaSha384 => 8,
            SigningAlgorithm::EcdsaSha512 => 9,
        }
    }

    pub fn from_i32(number: i32) -> (value: Option<Self>)
        ensures
            value == Self::of_number(number),
    {
        match number {
            0 => Some(SigningAlgorithm::Unspecified),
            1 => Some(SigningAlgorithm::RsaPssSha256),
            2 => Some(SigningAlgorithm::RsaPssSha384),
            3 => Some(SigningAlgorithm::RsaPssSha512),
            4 => Some(SigningAlgorithm::RsaPkcs1Sha256),
            5 => Some(SigningAlgorithm::RsaPkcs1Sha384),
            6 => Some(SigningAlgorithm::RsaPkcs1Sha512),
            7 => Some(SigningAlgorithm::EcdsaSha256),
            8 => Some(SigningAlgorithm::EcdsaSha384),
            9 => Some(SigningAlgorithm::EcdsaSha512),
            _ => None,
        }
    }

    pub fn as_str_name(&self) -> (name: &'static str)
        ensures
            name@ == self.name(),
    {
        match self {
            SigningAlgorithm::Unspecified => "SIGNING_ALGORITHM_UNSPECIFIED",
            SigningAlgorithm::RsaPssSha256 => "SIGNING_ALGORITHM_RSA_PSS_SHA256",
            SigningAlgorithm::RsaPssSha384 => "SIGNING_ALGORITHM_RSA_PSS_SHA384",
            SigningAlgorithm::RsaPssSha512 => "SIGNING_ALGORITHM_RSA_PSS_SHA512",
            SigningAlgorithm::RsaPkcs1Sha256 => "SIGNING_ALGORITHM_RSA_PKCS1_SHA256",
            SigningAlgorithm::RsaPkcs1Sha384 => "SIGNING_ALGORITHM_RSA_PKCS1_SHA384",
            SigningAlgorithm::RsaPkcs1Sha512 => "SIGNING_ALGORITHM_RSA_PKCS1_SHA512",
            SigningAlgorithm::EcdsaSha256 => "SIGNING_ALGORITHM_ECDSA_SHA256",
            SigningAlgorithm::EcdsaSha384 => "SIGNING_ALGORITHM_ECDSA_SHA384",
            SigningAlgorithm::EcdsaSha512 => "SIGNING_ALGORITHM_ECDSA_SHA512",
        }
    }

    pub fn from_str_name(value: &str) -> (found: Option<Self>)
        ensures
            found == Self::of_name(value@),
    {
        if same_text(value, "SIGNING_ALGORITHM_UNSPECIFIED") {
            Some(SigningAlgorithm::Unspecified)
        } else if same_text(value, "SIGNING_ALGORITHM_RSA_PSS_SHA256") {
            Some(SigningAlgorithm::RsaPssSha256)
        } else if same_text(value, "SIGNING_ALGORITHM_RSA_PSS_SHA384") {
            Some(SigningAlgorithm::RsaPssSha384)
        } else if same_text(value, "SIGNING_ALGORITHM_RSA_PSS_SHA512") {
            Some(SigningAlgorithm::RsaPssSha512)
        } else if same_text(value, "SIGNING_ALGORITHM_RSA_PKCS1_SHA256") {
            Some(SigningAlgorithm::RsaPkcs1Sha256)
        } else if same_text(value, "SIGNING_ALGORITHM_RSA_PKCS1_SHA384") {
            Some(SigningAlgorithm::RsaPkcs1Sha384)
        } else if same_text(value, "SIGNING_ALGORITHM_RSA_PKCS1_SHA512") {
            Some(SigningAlgorithm::RsaPkcs1Sha512)
        } else if same_text(value, "SIGNING_ALGORITHM_ECDSA_SHA256") {
            Some(SigningAlgorithm::EcdsaSha256)
        } else if same_text(value, "SIGNING_ALGORITHM_ECDSA_SHA384") {
            Some(SigningAlgorithm::EcdsaSha384)
        } else if same_text(value, "SIGNING_ALGORITHM_ECDSA_SHA512") {
            Some(SigningAlgorithm::EcdsaSha512)
        } else {
            None
        }
    }

    /// Every value is the value of its number and of its name.
    pub proof fn lemma_round_trip(self)
        ensures
            Self::of_number(self.number()) == Some(self),
            Self::of_name(self.name()) == Some(self),
    {
        reveal_strlit("SIGNING_ALGORITHM_UNSPECIFIED");
        reveal_strlit("SIGNING_ALGORITHM_RSA_PSS_SHA256");
        reveal_strlit("SIGNING_ALGORITHM_RSA_PSS_SHA384");
        reveal_strlit("SIGNING_ALGORITHM_RSA_PSS_SHA512");
        reveal_strlit("SIGNING_ALGORITHM_RSA_PKCS1_SHA256");
        reveal_strlit("SIGNING_ALGORITHM_RSA_PKCS1_SHA384");
        reveal_strlit("SIGNING_ALGORITHM_RSA_PKCS1_SHA512");
        reveal_strlit("SIGNING_ALGORITHM_ECDSA_SHA256");
        reveal_strlit("SIGNING_ALGORITHM_ECDSA_SHA384");
        reveal_strlit("SIGNING_ALGORITHM_ECDSA_SHA512");
        assert("SIGNING_ALGORITHM_UNSPECIFIED"@.len() != "SIGNING_ALGORITHM_RSA_PSS_SHA256"@.len());
        assert("SIGNING_ALGORITHM_UNSPECIFIED"@.len() != "SIGNING_ALGORITHM_RSA_PSS_SHA384"@.len());
        assert("SIGNING_ALGORITHM_UNSPECIFIED"@.len() != "SIGNING_ALGORITHM_RSA_PSS_SHA512"@.len());
        assert("SIGNING_ALGORITHM_UNSPECIFIED"@.len() != "SIGNING_ALGORITHM_RSA_PKCS1_SHA256"@.len());
        assert("SIGNING_ALGORITHM_UNSPECIFIED"@.len() != "SIGNING_ALGORITHM_RSA_PKCS1_SHA384"@.len());
        assert("SIGNING_ALGORITHM_UNSPECIFIED"@.len() != "SIGNING_ALGORITHM_RSA_PKCS1_SHA512"@.len());
        assert("SIGNING_ALGORITHM_UNSPECIFIED"@.len() != "SIGNING_ALGORITHM_ECDSA_SHA256"@.len());
        assert("SIGNING_ALGORITHM_UNSPECIFIED"@.len() != "SIGNING_ALGORITHM_ECDSA_SHA384"@.len());
        assert("SIGNING_ALGORITHM_UNSPECIFIED"@.len() != "SIGNING_ALGORITHM_ECDSA_SHA512"@.len());
        assert("SIGNING_ALGORITHM_RSA_PSS_SHA256"@[29] != "SIGNING_ALGORITHM_RSA_PSS_SHA384"@[29]);
        assert("SIGNING_ALGORITHM_RSA_PSS_SHA256"@[29] != "SIGNING_ALGORITHM_RSA_PSS_SHA512"@[29]);
        assert("SIGNING_ALGORITHM_RSA_PSS_SHA256"@.len() != "SIGNING_ALGORITHM_RSA_PKCS1_SHA256"@.len());
        assert("SIGNING_ALGORITHM_RSA_PSS_SHA256"@.len() != "SIGNING_ALGORITHM_RSA_PKCS1_SHA384"@.len());
        assert("SIGNING_ALGORITHM_RSA_PSS_SHA256"@.len() != "SIGNING_ALGORITHM_RSA_PKCS1_SHA512"@.len());
        assert("SIGNING_ALGORITHM_RSA_PSS_SHA256"@.len() != "SIGNING_ALGORITHM_ECDSA_SHA256"@.len());
        assert("SIGNING_ALGORITHM_RSA_PSS_SHA256"@.len() != "SIGNING_ALGORITHM_ECDSA_SHA384"@.len());
        assert("SIGNING_ALGORITHM_RSA_PSS_SHA256"@.len() != "SIGNING_ALGORITHM_ECDSA_SHA512"@.len());
        assert("SIGNING_ALGORITHM_RSA_PSS_SHA384"@[29] != "SIGNING_ALGORITHM_RSA_PSS_SHA512"@[29]);
        assert("SIGNING_ALGORITHM_RSA_PSS_SHA384"@.len() != "SIGNING_ALGORITHM_RSA_PKCS1_SHA256"@.len());
        assert("SIGNING_ALGORITHM_RSA_PSS_SHA384"@.len() != "SIGNING_ALGORITHM_RSA_PKCS1_SHA384"@.len());
        assert("SIGNING_ALGORITHM_RSA_PSS_SHA384"@.len() != "SIGNING_ALGORITHM_RSA_PKCS1_SHA512"@.len());
        assert("SIGNING_ALGORITHM_RSA_PSS_SHA384"@.len() != "SIGNING_ALGORITHM_ECDSA_SHA256"@.len());
        assert("SIGNING_ALGORITHM_RSA_PSS_SHA384"@.len() != "SIGNING_ALGORITHM_ECDSA_SHA384"@.len());
        assert("SIGNING_ALGORITHM_RSA_PSS_SHA384"@.len() != "SIGNING_ALGORITHM_ECDSA_SHA512"@.len());
        assert("SIGNING_ALGORITHM_RSA_PSS_SHA512"@.len() != "SIGNING_ALGORITHM_RSA_PKCS1_SHA256"@.len());
        assert("SIGNING_ALGORITHM_RSA_PSS_SHA512"@.len() != "SIGNING_ALGORITHM_RSA_PKCS1_SHA384"@.len());
        assert("SIGNING_ALGORITHM_RSA_PSS_SHA512"@.len() != "SIGNING_ALGORITHM_RSA_PKCS1_SHA512"@.len());
        assert("SIGNING_ALGORITHM_RSA_PSS_SHA512"@.len() != "SIGNING_ALGORITHM_ECDSA_SHA256"@.len());
        assert("SIGNING_ALGORITHM_RSA_PSS_SHA512"@.len() != "SIGNING_ALGORITHM_ECDSA_SHA384"@.len());
        assert("SIGNING_ALGORITHM_RSA_PSS_SHA512"@.len() != "SIGNING_ALGORITHM_ECDSA_SHA512"@.len());
        assert("SIGNING_ALGORITHM_RSA_PKCS1_SHA256"@[31] != "SIGNING_ALGORITHM_RSA_PKCS1_SHA384"@[31]);
        assert("SIGNING_ALGORITHM_RSA_PKCS1_SHA256"@[31] != "SIGNING_ALGORITHM_RSA_PKCS1_SHA512"@[31]);
        assert("SIGNING_ALGORITHM_RSA_PKCS1_SHA256"@.len() != "SIGNING_ALGORITHM_ECDSA_SHA256"@.len());
        assert("SIGNING_ALGORITHM_RSA_PKCS1_SHA256"@.len() != "SIGNING_ALGORITHM_ECDSA_SHA384"@.len());
        assert("SIGNING_ALGORITHM_RSA_PKCS1_SHA256"@.len() != "SIGNING_ALGORITHM_ECDSA_SHA512"@.len());
        assert("SIGNING_ALGORITHM_RSA_PKCS1_SHA384"@[31] != "SIGNING_ALGORITHM_RSA_PKCS1_SHA512"@[31]);
        assert("SIGNING_ALGORITHM_RSA_PKCS1_SHA384"@.len() != "SIGNING_ALGORITHM_ECDSA_SHA256"@.len());
        assert("SIGNING_ALGORITHM_RSA_PKCS1_SHA384"@.len() != "SIGNING_ALGORITHM_ECDSA_SHA384"@.len());
        assert("SIGNING_ALGORITHM_RSA_PKCS1_SHA384"@.len() != "SIGNING_ALGORITHM_ECDSA_SHA512"@.len());
        assert("SIGNING_ALGORITHM_RSA_PKCS1_SHA512"@.len() != "SIGNING_ALGORITHM_ECDSA_SHA256"@.len());
        assert("SIGNING_ALGORITHM_RSA_PKCS1_SHA512"@.len() != "SIGNING_ALGORITHM_ECDSA_SHA384"@.len());
        assert("SIGNING_ALGORITHM_RSA_PKCS1_SHA512"@.len() != "SIGNING_ALGORITHM_ECDSA_SHA512"@.len());
        assert("SIGNING_ALGORITHM_ECDSA_SHA256"@[27] != "SIGNING_ALGORITHM_ECDSA_SHA384"@[27]);
        assert("SIGNING_ALGORITHM_ECDSA_SHA256"@[27] != "SIGNING_ALGORITHM_ECDSA_SHA512"@[27]);
        assert("SIGNING_ALGORITHM_ECDSA_SHA384"@[27] != "SIGNING_ALGORITHM_ECDSA_SHA512"@[27]);
    }
}

/// The hash functions of the wire schema.
#[derive(Debug, Clone, Copy, PartialEq, Eq, Structural, Hash)]
pub enum HashAlgorithm {
    Unspecified,
    Sha256,
    Sha384,
    Sha512,
}

impl HashAlgorithm {
    /// The number that stands for the value on the wire.
    pub open spec fn number(self) -> i32 {
        match self {
            HashAlgorithm::Unspecified => 0,
            HashAlgorithm::Sha256 => 1,
            HashAlgorithm::Sha384 => 2,
            HashAlgorithm::Sha512 => 3,
        }
    }

    /// The value that a number stands for, if it stands for one.
    pub open spec fn of_number(number: i32) -> Option<Self> {
        if number == 0 {
            Some(HashAlgorithm::Unspecified)
        } else if number == 1 {
            Some(HashAlgorithm::Sha256)
        } else if number == 2 {
            Some(HashAlgorithm::Sha384)
        } else if number == 3 {
            Some(HashAlgorithm::Sha512)
        } else {
            None
        }
    }

    /// The name of the value in the schema.
    pub open spec fn name(self) -> Seq<char> {
        match self {
            HashAlgorithm::Unspecified => "HASH_ALGORITHM_UNSPECIFIED"@,
            HashAlgorithm::Sha256 => "HASH_ALGORITHM_SHA256"@,
            HashAlgorithm::Sha384 => "HASH_ALGORITHM_SHA384"@,
            HashAlgorithm::Sha512 => "HASH_ALGORITHM_SHA512"@,
        }
    }

    /// The value that a name of the schema stands for, if it stands for
    /// one.
    pub open spec fn of_name(name: Seq<char>) -> Option<Self> {
        if name == "HASH_ALGORITHM_UNSPECIFIED"@ {
            Some(HashAlgorithm::Unspecified)
        } else if name == "HASH_ALGORITHM_SHA256"@ {
            Some(HashAlgorithm::Sha256)
        } else if name == "HASH_ALGORITHM_SHA384"@ {
            Some(HashAlgorithm::Sha384)
        } else if name == "HASH_ALGORITHM_SHA512"@ {
            Some(HashAlgorithm::Sha512)
        } else {
            None
        }
    }

    pub fn as_i32(self) -> (number: i32)
        ensures
            number == self.number(),
    {
        match self {
            HashAlgorithm::Unspecified => 0,
            HashAlgorithm::Sha256 => 1,
            HashAlgorithm::Sha384 => 2,
            HashAlgorithm::Sha512 => 3,
        }
    }

    pub fn from_i32(number: i32) -> (value: Option<Self>)
        ensures
            value == Self::of_number(number),
    {
        match number {
            0 => Some(HashAlgorithm::Unspecified),
            1 => Some(HashAlgorithm::Sha256),
            2 => Some(HashAlgorithm::Sha384),
            3 => Some(HashAlgorithm::Sha512),
            _ => None,
        }
    }

    pub fn as_str_name(&self) -> (name: &'static str)
        ensures
            name@ == self.name(),
    {
        match self {
            HashAlgorithm::Unspecified => "HASH_ALGORITHM_UNSPECIFIED",
            HashAlgorithm::Sha256 => "HASH_ALGORITHM_SHA256",
            HashAlgorithm::Sha384 => "HASH_ALGORITHM_SHA384",
            HashAlgorithm::Sha512 => "HASH_ALGORITHM_SHA512",
        }
    }

    pub fn from_str_name(value: &str) -> (found: Option<Self>)
        ensures
            found == Self::of_name(value@),
    {
        if same_text(value, "HASH_ALGORITHM_UNSPECIFIED") {
            Some(HashAlgorithm::Unspecified)
        } else if same_text(value, "HASH_ALGORITHM_SHA256") {
            Some(HashAlgorithm::Sha256)
        } else if same_text(value, "HASH_ALGORITHM_SHA384") {
            Some(HashAlgorithm::Sha384)
        } else if same_text(value, "HASH_ALGORITHM_SHA512") {
            Some(HashAlgorithm::Sha512)
        } else {
            None
        }
    }

    /// Every value is the value of its number and of its name.
    pub proof fn lemma_round_trip(self)
        ensures
            Self::of_number(self.number()) == Some(self),
            Self::of_name(self.name()) == Some(self),
    {
        reveal_strlit("HASH_ALGORITHM_UNSPECIFIED");
        reveal_strlit("HASH_ALGORITHM_SHA256");
        reveal_strlit("HASH_ALGORITHM_SHA384");
        reveal_strlit("HASH_ALGORITHM_SHA512");
        assert("HASH_ALGORITHM_UNSPECIFIED"@.len() != "HASH_ALGORITHM_SHA256"@.len());
        assert("HASH_ALGORITHM_UNSPECIFIED"@.len() != "HASH_ALGORITHM_SHA384"@.len());
        assert("HASH_ALGORITHM_UNSPECIFIED"@.len() != "HASH_ALGORITHM_SHA512"@.len());
        assert("HASH_ALGORITHM_SHA256"@[18] != "HASH_ALGORITHM_SHA384"@[18]);
        assert("HASH_ALGORITHM_SHA256"@[18] != "HASH_ALGORITHM_SHA512"@[18]);
        assert("HASH_ALGORITHM_SHA384"@[18] != "HASH_ALGORITHM_SHA512"@[18]);
    }
}

/// The error codes of the wire schema.
#[derive(Debug, Clone, Copy, PartialEq, Eq, Structural, Hash)]
pub enum ErrorCode {
    Unspecified,
    InvalidKeyId,
    InvalidAlgorithm,
    InvalidData,
    KeyGenerationFailed,
    SigningFailed,
    VerificationFailed,
    KeyNotFound,
    KeyAlreadyExists,
    InternalError,
    InvalidSignature,
}

impl ErrorCode {
    /// The number that stands for the value on the wire.
    pub open spec fn number(self) -> i32 {
        match self {
            ErrorCode::Unspecified => 0,
            ErrorCode::InvalidKeyId => 1,
            ErrorCode::InvalidAlgorithm => 2,
            ErrorCode::InvalidData => 3,
            ErrorCode::KeyGenerationFailed => 4,
            ErrorCode::SigningFailed => 5,
            ErrorCode::VerificationFailed => 6,
            ErrorCode::KeyNotFound => 7,
            ErrorCode::KeyAlreadyExists => 8,
            ErrorCode::InternalError => 9,
            ErrorCode::InvalidSignature => 10,
        }
    }

    /// The value that a number stands for, if it stands for one.
    pub open spec fn of_number(number: i32) -> Option<Self> {
        if number == 0 {
            Some(ErrorCode::Unspecified)
        } else if number == 1 {
            Some(ErrorCode::InvalidKeyId)
        } else if number == 2 {
            Some(ErrorCode::InvalidAlgorithm)
        } else if number == 3 {
            Some(ErrorCode::InvalidData)
        } else if number == 4 {
            Some(ErrorCode::KeyGenerationFailed)
        } else if number == 5 {
            Some(ErrorCode::SigningFailed)
        } else if number == 6 {
            Some(ErrorCode::VerificationFailed)
        } else if number == 7 {
            Some(ErrorCode::KeyNotFound)
        } else if number == 8 {
            Some(ErrorCode::KeyAlreadyExists)
        } else if number == 9 {
            Some(ErrorCode::InternalError)
        } else if number == 10 {
            Some(ErrorCode::InvalidSignature)
        } else {
            None
        }
    }

    /// The name of the value in the schema.
    pub open spec fn name(self) -> Seq<char> {
        match self {
            ErrorCode::Unspecified => "ERROR_CODE_UNSPECIFIED"@,
            ErrorCode::InvalidKeyId => "ERROR_CODE_INVALID_KEY_ID"@,
            ErrorCode::InvalidAlgorithm => "ERROR_CODE_INVALID_ALGORITHM"@,
            ErrorCode::InvalidData => "ERROR_CODE_INVALID_DATA"@,
            ErrorCode::KeyGenerationFailed => "ERROR_CODE_KEY_GENERATION_FAILED"@,
            ErrorCode::SigningFailed => "ERROR_CODE_SIGNING_FAILED"@,
            ErrorCode::VerificationFailed => "ERROR_CODE_VERIFICATION_FAILED"@,
            ErrorCode::KeyNotFound => "ERROR_CODE_KEY_NOT_FOUND"@,
            ErrorCode::KeyAlreadyExists => "ERROR_CODE_KEY_ALREADY_EXISTS"@,
            ErrorCode::InternalError => "ERROR_CODE_INTERNAL_ERROR"@,
            ErrorCode::InvalidSignature => "ERROR_CODE_INVALID_SIGNATURE"@,
        }
    }

    /// The value that a name of the schema stands for, if it stands for
    /// one.
    pub open spec fn of_name(name: Seq<char>) -> Option<Self> {
        if name == "ERROR_CODE_UNSPECIFIED"@ {
            Some(ErrorCode::Unspecified)
        } else if name == "ERROR_CODE_INVALID_KEY_ID"@ {
            Some(ErrorCode::InvalidKeyId)
        } else if name == "ERROR_CODE_INVALID_ALGORITHM"@ {
            Some(ErrorCode::InvalidAlgorithm)
        } else if name == "ERROR_CODE_INVALID_DATA"@ {
            Some(ErrorCode::InvalidData)
        } else if name == "ERROR_CODE_KEY_GENERATION_FAILED"@ {
            Some(ErrorCode::KeyGenerationFailed)
        } else if name == "ERROR_CODE_SIGNING_FAILED"@ {
            Some(ErrorCode::SigningFailed)
        } else if name == "ERROR_CODE_VERIFICATION_FAILED"@ {
            Some(ErrorCode::VerificationFailed)
        } else if name == "ERROR_CODE_KEY_NOT_FOUND"@ {
            Some(ErrorCode::KeyNotFound)
        } else if name == "ERROR_CODE_KEY_ALREADY_EXISTS"@ {
            Some(ErrorCode::KeyAlreadyExists)
        } else if name == "ERROR_CODE_INTERNAL_ERROR"@ {
            Some(ErrorCode::InternalError)
        } else if name == "ERROR_CODE_INVALID_SIGNATURE"@ {
            Some(ErrorCode::InvalidSignature)
        } else {
            None
        }
    }

    pub fn as_i32(self) -> (number: i32)
        ensures
            number == self.number(),
    {
        match self {
            ErrorCode::Unspecified => 0,
            ErrorCode::InvalidKeyId => 1,
            ErrorCode::InvalidAlgorithm => 2,
            ErrorCode::InvalidData => 3,
            ErrorCode::KeyGenerationFailed => 4,
            ErrorCode::SigningFailed => 5,
            ErrorCode::VerificationFailed => 6,
            ErrorCode::KeyNotFound => 7,
            ErrorCode::KeyAlreadyExists => 8,
            ErrorCode::InternalError => 9,
            ErrorCode::InvalidSignature => 10,
        }
    }

    pub fn from_i32(number: i32) -> (value: Option<Self>)
        ensures
            value == Self::of_number(number),
    {
        match number {
            0 => Some(ErrorCode::Unspecified),
            1 => Some(ErrorCode::InvalidKeyId),
            2 => Some(ErrorCode::InvalidAlgorithm),
            3 => Some(ErrorCode::InvalidData),
            4 => Some(ErrorCode::KeyGenerationFailed),
            5 => Some(ErrorCode::SigningFailed),
            6 => Some(ErrorCode::VerificationFailed),
            7 => Some(ErrorCode::KeyNotFound),
            8 => Some(ErrorCode::KeyAlreadyExists),
            9 => Some(ErrorCode::InternalError),
            10 => Some(ErrorCode::InvalidSignature),
            _ => None,
        }
    }

    pub fn as_str_name(&self) -> (name: &'static str)
        ensures
            name@ == self.name(),
    {
        match self {
            ErrorCode::Unspecified => "ERROR_CODE_UNSPECIFIED",
            ErrorCode::InvalidKeyId => "ERROR_CODE_INVALID_KEY_ID",
            ErrorCode::InvalidAlgorithm => "ERROR_CODE_INVALID_ALGORITHM",
            ErrorCode::InvalidData => "ERROR_CODE_INVALID_DATA",
            ErrorCode::KeyGenerationFailed => "ERROR_CODE_KEY_GENERATION_FAILED",
            ErrorCode::SigningFailed => "ERROR_CODE_SIGNING_FAILED",
            ErrorCode::VerificationFailed => "ERROR_CODE_VERIFICATION_FAILED",
            ErrorCode::KeyNotFound => "ERROR_CODE_KEY_NOT_FOUND",
            ErrorCode::KeyAlreadyExists => "ERROR_CODE_KEY_ALREADY_EXISTS",
            ErrorCode::InternalError => "ERROR_CODE_INTERNAL_ERROR",
            ErrorCode::InvalidSignature => "ERROR_CODE_INVALID_SIGNATURE",
        }
    }

    pub fn from_str_name(value: &str) -> (found: Option<Self>)
        ensures
            found == Self::of_name(value@),
    {
        if same_text(value, "ERROR_CODE_UNSPECIFIED") {
            Some(ErrorCode::Unspecified)
        } else if same_text(value, "ERROR_CODE_INVALID_KEY_ID") {
            Some(ErrorCode::InvalidKeyId)
        } else if same_text(value, "ERROR_CODE_INVALID_ALGORITHM") {
            Some(ErrorCode::InvalidAlgorithm)
        } else if same_text(value, "ERROR_CODE_INVALID_DATA") {
            Some(ErrorCode::InvalidData)
        } else if same_text(value, "ERROR_CODE_KEY_GENERATION_FAILED") {
            Some(ErrorCode::KeyGenerationFailed)
        } else if same_text(value, "ERROR_CODE_SIGNING_FAILED") {
            Some(ErrorCode::SigningFailed)
        } else if same_text(value, "ERROR_CODE_VERIFICATION_FAILED") {
            Some(ErrorCode::VerificationFailed)
        } else if same_text(value, "ERROR_CODE_KEY_NOT_FOUND") {
            Some(ErrorCode::KeyNotFound)
        } else if same_text(value, "ERROR_CODE_KEY_ALREADY_EXISTS") {
            Some(ErrorCode::KeyAlreadyExists)
        } else if same_text(value, "ERROR_CODE_INTERNAL_ERROR") {
            Some(ErrorCode::InternalError)
        } else if same_text(value, "ERROR_CODE_INVALID_SIGNATURE") {
            Some(ErrorCode::InvalidSignature)
        } else {
            None
        }
    }

    /// Every value is the value of its number and of its name.
    pub proof fn lemma_round_trip(self)
        ensures
            Self::of_number(self.number()) == Some(self),
            Self::of_name(self.name()) == Some(self),
    {
        reveal_strlit("ERROR_CODE_UNSPECIFIED");
        reveal_strlit("ERROR_CODE_INVALID_KEY_ID");
        reveal_strlit("ERROR_CODE_INVALID_ALGORITHM");
        reveal_strlit("ERROR_CODE_INVALID_DATA");
        reveal_strlit("ERROR_CODE_KEY_GENERATION_FAILED");
        reveal_strlit("ERROR_CODE_SIGNING_FAILED");
        reveal_strlit("ERROR_CODE_VERIFICATION_FAILED");
        reveal_strlit("ERROR_CODE_KEY_NOT_FOUND");
        reveal_strlit("ERROR_CODE_KEY_ALREADY_EXISTS");
        reveal_strlit("ERROR_CODE_INTERNAL_ERROR");
        reveal_strlit("ERROR_CODE_INVALID_SIGNATURE");
        assert("ERROR_CODE_UNSPECIFIED"@.len() != "ERROR_CODE_INVALID_KEY_ID"@.len());
        assert("ERROR_CODE_UNSPECIFIED"@.len() != "ERROR_CODE_INVALID_ALGORITHM"@.len());
        assert("ERROR_CODE_UNSPECIFIED"@.len() != "ERROR_CODE_INVALID_DATA"@.len());
        assert("ERROR_CODE_UNSPECIFIED"@.len() != "ERROR_CODE_KEY_GENERATION_FAILED"@.len());
        assert("ERROR_CODE_UNSPECIFIED"@.len() != "ERROR_CODE_SIGNING_FAILED"@.len());
        assert("ERROR_CODE_UNSPECIFIED"@.len() != "ERROR_CODE_VERIFICATION_FAILED"@.len());
        assert("ERROR_CODE_UNSPECIFIED"@.len() != "ERROR_CODE_KEY_NOT_FOUND"@.len());
        assert("ERROR_CODE_UNSPECIFIED"@.len() != "ERROR_CODE_KEY_ALREADY_EXISTS"@.len());
        assert("ERROR_CODE_UNSPECIFIED"@.len() != "ERROR_CODE_INTERNAL_ERROR"@.len());
        assert("ERROR_CODE_UNSPECIFIED"@.len() != "ERROR_CODE_INVALID_SIGNATURE"@.len());
        assert("ERROR_CODE_INVALID_KEY_ID"@.len() != "ERROR_CODE_INVALID_ALGORITHM"@.len());
        assert("ERROR_CODE_INVALID_KEY_ID"@.len() != "ERROR_CODE_INVALID_DATA"@.len());
        assert("ERROR_CODE_INVALID_KEY_ID"@.len() != "ERROR_CODE_KEY_GENERATION_FAILED"@.len());
        assert("ERROR_CODE_INVALID_KEY_ID"@[11] != "ERROR_CODE_SIGNING_FAILED"@[11]);
        assert("ERROR_CODE_INVALID_KEY_ID"@.len() != "ERROR_CODE_VERIFICATION_FAILED"@.len());
        assert("ERROR_CODE_INVALID_KEY_ID"@.len() != "ERROR_CODE_KEY_NOT_FOUND"@.len());
        assert("ERROR_CODE_INVALID_KEY_ID"@.len() != "ERROR_CODE_KEY_ALREADY_EXISTS"@.len());
        assert("ERROR_CODE_INVALID_KEY_ID"@[13] != "ERROR_CODE_INTERNAL_ERROR"@[13]);
        assert("ERROR_CODE_INVALID_KEY_ID"@.len() != "ERROR_CODE_INVALID_SIGNATURE"@.len());
        assert("ERROR_CODE_INVALID_ALGORITHM"@.len() != "ERROR_CODE_INVALID_DATA"@.len());
        assert("ERROR_CODE_INVALID_ALGORITHM"@.len() != "ERROR_CODE_KEY_GENERATION_FAILED"@.len());
        assert("ERROR_CODE_INVALID_ALGORITHM"@.len() != "ERROR_CODE_SIGNING_FAILED"@.len());
        assert("ERROR_CODE_INVALID_ALGORITHM"@.len() != "ERROR_CODE_VERIFICATION_FAILED"@.len());
        assert("ERROR_CODE_INVALID_ALGORITHM"@.len() != "ERROR_CODE_KEY_NOT_FOUND"@.len());
        assert("ERROR_CODE_INVALID_ALGORITHM"@.len() != "ERROR_CODE_KEY_ALREADY_EXISTS"@.len());
        assert("ERROR_CODE_INVALID_ALGORITHM"@.len() != "ERROR_CODE_INTERNAL_ERROR"@.len());
        assert("ERROR_CODE_INVALID_ALGORITHM"@[19] != "ERROR_CODE_INVALID_SIGNATURE"@[19]);
        assert("ERROR_CODE_INVALID_DATA"@.len() != "ERROR_CODE_KEY_GENERATION_FAILED"@.len());
        assert("ERROR_CODE_INVALID_DATA"@.len() != "ERROR_CODE_SIGNING_FAILED"@.len());
        assert("ERROR_CODE_INVALID_DATA"@.len() != "ERROR_CODE_VERIFICATION_FAILED"@.len());
        assert("ERROR_CODE_INVALID_DATA"@.len() != "ERROR_CODE_KEY_NOT_FOUND"@.len());
        assert("ERROR_CODE_INVALID_DATA"@.len() != "ERROR_CODE_KEY_ALREADY_EXISTS"@.len());
        assert("ERROR_CODE_INVALID_DATA"@.len() != "ERROR_CODE_INTERNAL_ERROR"@.len());
        assert("ERROR_CODE_INVALID_DATA"@.len() != "ERROR_CODE_INVALID_SIGNATURE"@.len());
        assert("ERROR_CODE_KEY_GENERATION_FAILED"@.len() != "ERROR_CODE_SIGNING_FAILED"@.len());
        assert("ERROR_CODE_KEY_GENERATION_FAILED"@.len() != "ERROR_CODE_VERIFICATION_FAILED"@.len());
        assert("ERROR_CODE_KEY_GENERATION_FAILED"@.len() != "ERROR_CODE_KEY_NOT_FOUND"@.len());
        assert("ERROR_CODE_KEY_GENERATION_FAILED"@.len() != "ERROR_CODE_KEY_ALREADY_EXISTS"@.len());
        assert("ERROR_CODE_KEY_GENERATION_FAILED"@.len() != "ERROR_CODE_INTERNAL_ERROR"@.len());
        assert("ERROR_CODE_KEY_GENERATION_FAILED"@.len() != "ERROR_CODE_INVALID_SIGNATURE"@.len());
        assert("ERROR_CODE_SIGNING_FAILED"@.len() != "ERROR_CODE_VERIFICATION_FAILED"@.len());
        assert("ERROR_CODE_SIGNING_FAILED"@.len() != "ERROR_CODE_KEY_NOT_FOUND"@.len());
        assert("ERROR_CODE_SIGNING_FAILED"@.len() != "ERROR_CODE_KEY_ALREADY_EXISTS"@.len());
        assert("ERROR_CODE_SIGNING_FAILED"@[11] != "ERROR_CODE_INTERNAL_ERROR"@[11]);
        assert("ERROR_CODE_SIGNING_FAILED"@.len() != "ERROR_CODE_INVALID_SIGNATURE"@.len());
        assert("ERROR_CODE_VERIFICATION_FAILED"@.len() != "ERROR_CODE_KEY_NOT_FOUND"@.len());
        assert("ERROR_CODE_VERIFICATION_FAILED"@.len() != "ERROR_CODE_KEY_ALREADY_EXISTS"@.len());
        assert("ERROR_CODE_VERIFICATION_FAILED"@.len() != "ERROR_CODE_INTERNAL_ERROR"@.len());
        assert("ERROR_CODE_VERIFICATION_FAILED"@.len() != "ERROR_CODE_INVALID_SIGNATURE"@.len());
        assert("ERROR_CODE_KEY_NOT_FOUND"@.len() != "ERROR_CODE_KEY_ALREADY_EXISTS"@.len());
        assert("ERROR_CODE_KEY_NOT_FOUND"@.len() != "ERROR_CODE_INTERNAL_ERROR"@.len());
        assert("ERROR_CODE_KEY_NOT_FOUND"@.len() != "ERROR_CODE_INVALID_SIGNATURE"@.len());
        assert("ERROR_CODE_KEY_ALREADY_EXISTS"@.len() != "ERROR_CODE_INTERNAL_ERROR"@.len());
        assert("ERROR_CODE_KEY_ALREADY_EXISTS"@.len() != "ERROR_CODE_INVALID_SIGNATURE"@.len());
        assert("ERROR_CODE_INTERNAL_ERROR"@.len() != "ERROR_CODE_INVALID_SIGNATURE"@.len());
    }
}

/// What is known of a key.
#[derive(Debug, Clone, PartialEq, Eq)]
pub struct KeyInfo {
    pub key_id: String,
    pub key_type: i32,
    /// Seconds since the Unix epoch.
    pub created_at: i64,
    pub description: String,
    pub is_active: bool,
}

/// A request to sign data.
#[derive(Debug, Clone, PartialEq, Eq)]
pub struct SignRequest {
    pub data: Vec<u8>,
    pub key_type: i32,
    pub algorithm: i32,
    pub key_id: String,
}

/// The answer to a request to sign.
#[derive(Debug, Clone, PartialEq, Eq)]
pub struct SignResponse {
    pub signature: Vec<u8>,
    pub success: bool,
    pub error_message: String,
    pub error_code: i32,
    pub processing_time_us: u64,
}

/// A request to generate a key pair.
#[derive(Debug, Clone, PartialEq, Eq)]
pub struct GenerateKeyRequest {
    pub key_id: String,
    pub key_type: i32,
    pub description: String,
}

/// The answer to a request to generate a key pair.
#[derive(Debug, Clone, PartialEq, Eq)]
pub struct GenerateKeyResponse {
    pub success: bool,
    pub error_message: String,
    pub error_code: i32,
    pub key_info: Option<KeyInfo>,
}

/// A request to list keys, with optional filters.
#[derive(Debug, Clone, PartialEq, Eq)]
pub struct ListKeysRequest {
    pub key_type_filter: Option<i32>,
    pub active_only: Option<bool>,
}

/// The answer to a request to list keys.
#[derive(Debug, Clone, PartialEq, Eq)]
pub struct ListKeysResponse {
    pub keys: Vec<KeyInfo>,
    pub success: bool,
    pub error_message: String,
    pub error_code: i32,
}

/// A request to delete a key.
#[derive(Debug, Clone, PartialEq, Eq)]
pub struct DeleteKeyRequest {
    pub key_id: String,
}

/// The answer to a request to delete a key.
#[derive(Debug, Clone, PartialEq, Eq)]
pub struct DeleteKeyResponse {
    pub success: bool,
    pub error_message: String,
    pub error_code: i32,
}

/// A request for the health of a service.
#[derive(Debug, Clone, PartialEq, Eq)]
pub struct HealthCheckRequest {
    pub service: String,
}

/// The health of a service.
#[derive(Debug, Clone, PartialEq, Eq)]
pub struct HealthCheckResponse {
    pub status: i32,
    pub message: String,
}

/// A request to verify a signature.
#[derive(Debug, Clone, PartialEq, Eq)]
pub struct VerifyRequest {
    pub data: Vec<u8>,
    pub signature: Vec<u8>,
    pub key_id: String,
    pub algorithm: i32,
    pub hash_algorithm: i32,
}

/// The answer to a request to verify.
#[derive(Debug, Clone, PartialEq, Eq)]
pub struct VerifyResponse {
    pub valid: bool,
    pub success: bool,
    pub error_message: String,
    pub error_code: i32,
}

} // verus!
