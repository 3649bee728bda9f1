use vstd::prelude::*;

verus! {

/// An amount of one denomination.
#[derive(Clone, Debug, PartialEq)]
pub struct Coin {
    pub denom: String,
    pub amount: u128,
}

/// A coin, by value.
pub struct CoinView {
    pub denom: Seq<char>,
    pub amount: u128,
}

impl View for Coin {
    type V = CoinView;

    open spec fn view(&self) -> CoinView {
        CoinView { denom: self.denom@, amount: self.amount }
    }
}

/// The coins of a list, by value.
pub open spec fn coins_view(coins: Seq<Coin>) -> Seq<CoinView> {
    coins.map_values(|c: Coin| c@)
}

/// What a step knows of the chain: the block time and its own address.
#[derive(Clone, Debug, PartialEq)]
pub struct Env {
    pub block_time: u64,
    pub contract_address: String,
}

/// Who sent the message, and with which coins.
#[derive(Clone, Debug, PartialEq)]
pub struct MessageInfo {
    pub sender: String,
    pub funds: Vec<Coin>,
}

/// A message that a step asks the chain to dispatch.
#[derive(Clone, Debug, PartialEq)]
pub enum CosmosMsg {
    /// Send native coins to an address.
    BankSend { to_address: String, amount: Vec<Coin> },
    /// Execute a contract with a serialised message.
    WasmExecute { contract_addr: String, msg: Vec<u8>, funds: Vec<Coin> },
}

/// A message, by value.
pub enum CosmosMsgView {
    BankSend { to_address: Seq<char>, amount: Seq<CoinView> },
    WasmExecute { contract_addr: Seq<char>, msg: Seq<u8>, funds: Seq<CoinView> },
}

impl View for CosmosMsg {
    type V = CosmosMsgView;

    open spec fn view(&self) -> CosmosMsgView {
        match self {
            CosmosMsg::BankSend { to_address, amount } => CosmosMsgView::BankSend {
                to_address: to_address@,
                amount: coins_view(amount@),
            },
            CosmosMsg::WasmExecute { contract_addr, msg, funds } => CosmosMsgView::WasmExecute {
                contract_addr: contract_addr@,
                msg: msg@,
                funds: coins_view(funds@),
            },
        }
    }
}

/// A key and value that a step reports.
#[derive(Clone, Debug, PartialEq)]
pub struct Attribute {
    pub key: String,
    pub value: String,
}

impl View for Attribute {
    type V = (Seq<char>, Seq<char>);

    open spec fn view(&self) -> (Seq<char>, Seq<char>) {
        (self.key@, self.value@)
    }
}

/// What a successful step answers: messages to dispatch and attributes.
#[derive(Clone, Debug, PartialEq)]
pub struct Response {
    pub messages: Vec<CosmosMsg>,
    pub attributes: Vec<Attribute>,
}

/// A response, by value.
pub struct ResponseView {
    pub messages: Seq<CosmosMsgView>,
    pub attributes: Seq<(Seq<char>, Seq<char>)>,
}

impl View for Response {
    type V = ResponseView;

    open spec fn view(&self) -> ResponseView {
        ResponseView {
            messages: self.messages@.map_values(|m: CosmosMsg| m@),
            attributes: self.attributes@.map_values(|a: Attribute| a@),
        }
    }
}

impl Response {
    /// An empty response.
    pub fn new() -> (r: Response)
        ensures
            r@.messages == Seq::<CosmosMsgView>::empty(),
            r@.attributes == Seq::<(Seq<char>, Seq<char>)>::empty(),
    {
        let r = Response { messages: Vec::new(), attributes: Vec::new() };
        assert(r@.messages =~= Seq::<CosmosMsgView>::empty());
        assert(r@.attributes =~= Seq::<(Seq<char>, Seq<char>)>::empty());
        r
    }

    /// Appends an attribute.
    pub fn add_attribute(&mut self, key: &str, value: String)
        ensures
            final(self)@.messages == old(self)@.messages,
            final(self)@.attributes == old(self)@.attributes.push((key@, value@)),
    {
        let ghost before = self.attributes@;
        let a = Attribute { key: key.to_owned(), value };
        self.attributes.push(a);
        assert(self.attributes@.map_values(|a: Attribute| a@) =~= before.map_values(
            |a: Attribute| a@,
        ).push((key@, value@)));
    }

    /// Appends a message.
    pub fn add_message(&mut self, m: CosmosMsg)
        ensures
            final(self)@.attributes == old(self)@.attributes,
            final(self)@.messages == old(self)@.messages.push(m@),
    {
        let ghost before = self.messages@;
        let ghost mv = m@;
        self.messages.push(m);
        assert(self.messages@.map_values(|m: CosmosMsg| m@) =~= before.map_values(
            |m: CosmosMsg| m@,
        ).push(mv));
    }
}

} // verus!
