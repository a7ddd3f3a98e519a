//! Plain-value message, record, event and response types of the simulated
//! modules, with their ghost views.
use vstd::prelude::*;

verus! {

/// A named event attribute list, part of every successful execution's
/// observable outcome.
#[derive(Debug)]
pub struct Event {
    pub ty: String,
    pub attributes: Vec<(String, String)>,
}

#[verifier::ext_equal]
pub ghost struct EventV {
    pub ty: Seq<char>,
    pub attributes: Seq<(Seq<char>, Seq<char>)>,
}

impl View for Event {
    type V = EventV;

    open spec fn view(&self) -> EventV {
        EventV {
            ty: self.ty@,
            attributes: self.attributes@.map_values(|p: (String, String)| (p.0@, p.1@)),
        }
    }
}

/// What a successful execute returns: an optional binary payload and the
/// emitted events.
#[derive(Debug)]
pub struct ModuleResponse {
    pub data: Option<Vec<u8>>,
    pub events: Vec<Event>,
}

#[verifier::ext_equal]
pub ghost struct ResponseV {
    pub data: Option<Seq<u8>>,
    pub events: Seq<EventV>,
}

impl View for ModuleResponse {
    type V = ResponseV;

    open spec fn view(&self) -> ResponseV {
        ResponseV {
            data: match self.data {
                Some(d) => Some(d@),
                None => None,
            },
            events: self.events@.map_values(|e: Event| e@),
        }
    }
}

/// An amount of a denom carried inside a message, amount still textual.
pub struct CoinMsg {
    pub denom: String,
    pub amount: String,
}

#[verifier::ext_equal]
pub ghost struct CoinMsgV {
    pub denom: Seq<char>,
    pub amount: Seq<char>,
}

impl View for CoinMsg {
    type V = CoinMsgV;

    open spec fn view(&self) -> CoinMsgV {
        CoinMsgV { denom: self.denom@, amount: self.amount@ }
    }
}

/// Fungible-token issuance request (Coreum variant); also the persisted
/// issuance record.
pub struct IssueMsg {
    pub issuer: String,
    pub symbol: String,
    pub subunit: String,
    pub precision: u32,
    pub initial_amount: String,
    pub description: String,
}

#[verifier::ext_equal]
pub ghost struct IssueMsgV {
    pub issuer: Seq<char>,
    pub symbol: Seq<char>,
    pub subunit: Seq<char>,
    pub precision: u32,
    pub initial_amount: Seq<char>,
    pub description: Seq<char>,
}

impl View for IssueMsg {
    type V = IssueMsgV;

    open spec fn view(&self) -> IssueMsgV {
        IssueMsgV {
            issuer: self.issuer@,
            symbol: self.symbol@,
            subunit: self.subunit@,
            precision: self.precision,
            initial_amount: self.initial_amount@,
            description: self.description@,
        }
    }
}

/// Fungible-token mint request (Coreum variant).
pub struct MintMsg {
    pub sender: String,
    pub coin: Option<CoinMsg>,
    pub recipient: String,
}

#[verifier::ext_equal]
pub ghost struct MintMsgV {
    pub sender: Seq<char>,
    pub coin: Option<CoinMsgV>,
    pub recipient: Seq<char>,
}

impl View for MintMsg {
    type V = MintMsgV;

    open spec fn view(&self) -> MintMsgV {
        MintMsgV {
            sender: self.sender@,
            coin: match self.coin {
                Some(c) => Some(c@),
                None => None,
            },
            recipient: self.recipient@,
        }
    }
}

/// Fungible-token burn request (Coreum variant).
pub struct BurnMsg {
    pub sender: String,
    pub coin: Option<CoinMsg>,
}

#[verifier::ext_equal]
pub ghost struct BurnMsgV {
    pub sender: Seq<char>,
    pub coin: Option<CoinMsgV>,
}

impl View for BurnMsg {
    type V = BurnMsgV;

    open spec fn view(&self) -> BurnMsgV {
        BurnMsgV {
            sender: self.sender@,
            coin: match self.coin {
                Some(c) => Some(c@),
                None => None,
            },
        }
    }
}

/// NFT class issuance request; also the persisted class record.
pub struct IssueClassMsg {
    pub issuer: String,
    pub name: String,
    pub symbol: String,
    pub description: String,
    pub uri: String,
    pub uri_hash: String,
    pub data: Option<Vec<u8>>,
    pub features: Vec<i32>,
}

#[verifier::ext_equal]
pub ghost struct IssueClassMsgV {
    pub issuer: Seq<char>,
    pub name: Seq<char>,
    pub symbol: Seq<char>,
    pub description: Seq<char>,
    pub uri: Seq<char>,
    pub uri_hash: Seq<char>,
    pub data: Option<Seq<u8>>,
    pub features: Seq<i32>,
}

impl View for IssueClassMsg {
    type V = IssueClassMsgV;

    open spec fn view(&self) -> IssueClassMsgV {
        IssueClassMsgV {
            issuer: self.issuer@,
            name: self.name@,
            symbol: self.symbol@,
            description: self.description@,
            uri: self.uri@,
            uri_hash: self.uri_hash@,
            data: match self.data {
                Some(d) => Some(d@),
                None => None,
            },
            features: self.features@,
        }
    }
}

/// NFT mint request.
pub struct NftMintMsg {
    pub sender: String,
    pub class_id: String,
    pub id: String,
    pub uri: String,
    pub recipient: String,
    pub data: Option<Vec<u8>>,
}

#[verifier::ext_equal]
pub ghost struct NftMintMsgV {
    pub sender: Seq<char>,
    pub class_id: Seq<char>,
    pub id: Seq<char>,
    pub uri: Seq<char>,
    pub recipient: Seq<char>,
    pub data: Option<Seq<u8>>,
}

impl View for NftMintMsg {
    type V = NftMintMsgV;

    open spec fn view(&self) -> NftMintMsgV {
        NftMintMsgV {
            sender: self.sender@,
            class_id: self.class_id@,
            id: self.id@,
            uri: self.uri@,
            recipient: self.recipient@,
            data: match self.data {
                Some(d) => Some(d@),
                None => None,
            },
        }
    }
}

/// NFT burn request.
pub struct NftBurnMsg {
    pub sender: String,
    pub class_id: String,
    pub id: String,
}

#[verifier::ext_equal]
pub ghost struct NftBurnMsgV {
    pub sender: Seq<char>,
    pub class_id: Seq<char>,
    pub id: Seq<char>,
}

impl View for NftBurnMsg {
    type V = NftBurnMsgV;

    open spec fn view(&self) -> NftBurnMsgV {
        NftBurnMsgV { sender: self.sender@, class_id: self.class_id@, id: self.id@ }
    }
}

/// NFT transfer request.
pub struct NftSendMsg {
    pub sender: String,
    pub class_id: String,
    pub id: String,
    pub receiver: String,
}

#[verifier::ext_equal]
pub ghost struct NftSendMsgV {
    pub sender: Seq<char>,
    pub class_id: Seq<char>,
    pub id: Seq<char>,
    pub receiver: Seq<char>,
}

impl View for NftSendMsg {
    type V = NftSendMsgV;

    open spec fn view(&self) -> NftSendMsgV {
        NftSendMsgV {
            sender: self.sender@,
            class_id: self.class_id@,
            id: self.id@,
            receiver: self.receiver@,
        }
    }
}

/// A minted NFT as persisted: owner changes on transfer, record dies on burn.
pub struct NftRecord {
    pub class_id: String,
    pub id: String,
    pub owner: String,
    pub uri: String,
    pub data: Option<Vec<u8>>,
}

#[verifier::ext_equal]
pub ghost struct NftRecordV {
    pub class_id: Seq<char>,
    pub id: Seq<char>,
    pub owner: Seq<char>,
    pub uri: Seq<char>,
    pub data: Option<Seq<u8>>,
}

impl View for NftRecord {
    type V = NftRecordV;

    open spec fn view(&self) -> NftRecordV {
        NftRecordV {
            class_id: self.class_id@,
            id: self.id@,
            owner: self.owner@,
            uri: self.uri@,
            data: match self.data {
                Some(d) => Some(d@),
                None => None,
            },
        }
    }
}

/// Denom creation request (generic token-factory variant).
pub struct CreateDenomMsg {
    pub sender: String,
    pub subdenom: String,
}

#[verifier::ext_equal]
pub ghost struct CreateDenomMsgV {
    pub sender: Seq<char>,
    pub subdenom: Seq<char>,
}

impl View for CreateDenomMsg {
    type V = CreateDenomMsgV;

    open spec fn view(&self) -> CreateDenomMsgV {
        CreateDenomMsgV { sender: self.sender@, subdenom: self.subdenom@ }
    }
}

/// Mint request (generic token-factory variant).
pub struct OsmoMintMsg {
    pub sender: String,
    pub amount: Option<CoinMsg>,
    pub mint_to_address: String,
}

#[verifier::ext_equal]
pub ghost struct OsmoMintMsgV {
    pub sender: Seq<char>,
    pub amount: Option<CoinMsgV>,
    pub mint_to_address: Seq<char>,
}

impl View for OsmoMintMsg {
    type V = OsmoMintMsgV;

    open spec fn view(&self) -> OsmoMintMsgV {
        OsmoMintMsgV {
            sender: self.sender@,
            amount: match self.amount {
                Some(c) => Some(c@),
                None => None,
            },
            mint_to_address: self.mint_to_address@,
        }
    }
}

/// Burn request (generic token-factory variant).
pub struct OsmoBurnMsg {
    pub sender: String,
    pub amount: Option<CoinMsg>,
    pub burn_from_address: String,
}

#[verifier::ext_equal]
pub ghost struct OsmoBurnMsgV {
    pub sender: Seq<char>,
    pub amount: Option<CoinMsgV>,
    pub burn_from_address: Seq<char>,
}

impl View for OsmoBurnMsg {
    type V = OsmoBurnMsgV;

    open spec fn view(&self) -> OsmoBurnMsgV {
        OsmoBurnMsgV {
            sender: self.sender@,
            amount: match self.amount {
                Some(c) => Some(c@),
                None => None,
            },
            burn_from_address: self.burn_from_address@,
        }
    }
}

} // verus!
