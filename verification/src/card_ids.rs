//! Identities of the cards that the rules refer to by name.
//!
//! A card's identity is a short string such as "A1 219". The rules that
//! single out particular cards work on this closed list; an identity outside
//! it is simply unknown to them.

use vstd::prelude::*;

use crate::text::str_eq;

verus! {

/// A card that the rules single out.
#[derive(Clone, Copy, Debug, PartialEq, Eq, Hash, Structural)]
pub enum CardId {
    // Trainers whose play depends on the board.
    PA001Potion,
    A1219Erika,
    A1266Erika,
    A4b328Erika,
    A4b329Erika,
    A1220Misty,
    A1267Misty,
    A2a072Irida,
    A2a087Irida,
    A4b330Irida,
    A4b331Irida,
    A3155Lillie,
    A3197Lillie,
    A3209Lillie,
    A4b348Lillie,
    A4b349Lillie,
    A4b374Lillie,
    A1222Koga,
    A1269Koga,
    A1225Sabrina,
    A1272Sabrina,
    A4b338Sabrina,
    A4b339Sabrina,
    A2150Cyrus,
    A2190Cyrus,
    A4b326Cyrus,
    A4b327Cyrus,
    A2155Mars,
    A2195Mars,
    A4b344Mars,
    A4b345Mars,
    A3144RareCandy,
    A4b314RareCandy,
    A4b315RareCandy,
    A4b379RareCandy,
    A2b070PokemonCenterLady,
    A2b089PokemonCenterLady,
    A4151ElementalSwitch,
    A4b310ElementalSwitch,
    A4b311ElementalSwitch,
    A3a064Repel,
    A2146PokemonCommunication,
    A4b316PokemonCommunication,
    A4b317PokemonCommunication,
    A3a067Gladion,
    A3a081Gladion,
    A3a069Lusamine,
    A3a083Lusamine,
    A4b350Lusamine,
    A4b351Lusamine,
    A4b375Lusamine,
    A4157Lyra,
    A4197Lyra,
    A4b332Lyra,
    A4b333Lyra,
    A3b066EeveeBag,
    A3b107EeveeBag,
    A4b308EeveeBag,
    A4b309EeveeBag,
    // Trainers that can always be played.
    A4158Silver,
    A4198Silver,
    A4b336Silver,
    A4b337Silver,
    PA002XSpeed,
    PA005PokeBall,
    A2b111PokeBall,
    PA006RedCard,
    PA007ProfessorsResearch,
    A4b373ProfessorsResearch,
    A1223Giovanni,
    A1270Giovanni,
    A4b334Giovanni,
    A4b335Giovanni,
    A1a065MythicalSlab,
    A1a068Leaf,
    A1a082Leaf,
    A4b346Leaf,
    A4b347Leaf,
    A2b071Red,
    A2b090Red,
    A4b352Red,
    A4b353Red,
    // Creatures that rules name.
    A1175Muk,
    A1177Weezing,
    A1243Weezing,
}

impl CardId {
    /// The card with the given identity, if the rules single it out.
    pub open spec fn of_id(id: Seq<char>) -> Option<CardId> {
        if id == "P-A 001"@ {
            Some(CardId::PA001Potion)
        } else if id == "A1 219"@ {
            Some(CardId::A1219Erika)
        } else if id == "A1 266"@ {
            Some(CardId::A1266Erika)
        } else if id == "A4b 328"@ {
            Some(CardId::A4b328Erika)
        } else if id == "A4b 329"@ {
            Some(CardId::A4b329Erika)
        } else if id == "A1 220"@ {
            Some(CardId::A1220Misty)
        } else if id == "A1 267"@ {
            Some(CardId::A1267Misty)
        } else if id == "A2a 072"@ {
            Some(CardId::A2a072Irida)
        } else if id == "A2a 087"@ {
            Some(CardId::A2a087Irida)
        } else if id == "A4b 330"@ {
            Some(CardId::A4b330Irida)
        } else if id == "A4b 331"@ {
            Some(CardId::A4b331Irida)
        } else if id == "A3 155"@ {
            Some(CardId::A3155Lillie)
        } else if id == "A3 197"@ {
            Some(CardId::A3197Lillie)
        } else if id == "A3 209"@ {
            Some(CardId::A3209Lillie)
        } else if id == "A4b 348"@ {
            Some(CardId::A4b348Lillie)
        } else if id == "A4b 349"@ {
            Some(CardId::A4b349Lillie)
        } else if id == "A4b 374"@ {
            Some(CardId::A4b374Lillie)
        } else if id == "A1 222"@ {
            Some(CardId::A1222Koga)
        } else if id == "A1 269"@ {
            Some(CardId::A1269Koga)
        } else if id == "A1 225"@ {
            Some(CardId::A1225Sabrina)
        } else if id == "A1 272"@ {
            Some(CardId::A1272Sabrina)
        } else if id == "A4b 338"@ {
            Some(CardId::A4b338Sabrina)
        } else if id == "A4b 339"@ {
            Some(CardId::A4b339Sabrina)
        } else if id == "A2 150"@ {
            Some(CardId::A2150Cyrus)
        } else if id == "A2 190"@ {
            Some(CardId::A2190Cyrus)
        } else if id == "A4b 326"@ {
            Some(CardId::A4b326Cyrus)
        } else if id == "A4b 327"@ {
            Some(CardId::A4b327Cyrus)
        } else if id == "A2 155"@ {
            Some(CardId::A2155Mars)
        } else if id == "A2 195"@ {
            Some(CardId::A2195Mars)
        } else if id == "A4b 344"@ {
            Some(CardId::A4b344Mars)
        } else if id == "A4b 345"@ {
            Some(CardId::A4b345Mars)
        } else if id == "A3 144"@ {
            Some(CardId::A3144RareCandy)
        } else if id == "A4b 314"@ {
            Some(CardId::A4b314RareCandy)
        } else if id == "A4b 315"@ {
            Some(CardId::A4b315RareCandy)
        } else if id == "A4b 379"@ {
            Some(CardId::A4b379RareCandy)
        } else if id == "A2b 070"@ {
            Some(CardId::A2b070PokemonCenterLady)
        } else if id == "A2b 089"@ {
            Some(CardId::A2b089PokemonCenterLady)
        } else if id == "A4 151"@ {
            Some(CardId::A4151ElementalSwitch)
        } else if id == "A4b 310"@ {
            Some(CardId::A4b310ElementalSwitch)
        } else if id == "A4b 311"@ {
            Some(CardId::A4b311ElementalSwitch)
        } else if id == "A3a 064"@ {
            Some(CardId::A3a064Repel)
        } else if id == "A2 146"@ {
            Some(CardId::A2146PokemonCommunication)
        } else if id == "A4b 316"@ {
            Some(CardId::A4b316PokemonCommunication)
        } else if id == "A4b 317"@ {
            Some(CardId::A4b317PokemonCommunication)
        } else if id == "A3a 067"@ {
            Some(CardId::A3a067Gladion)
        } else if id == "A3a 081"@ {
            Some(CardId::A3a081Gladion)
        } else if id == "A3a 069"@ {
            Some(CardId::A3a069Lusamine)
        } else if id == "A3a 083"@ {
            Some(CardId::A3a083Lusamine)
        } else if id == "A4b 350"@ {
            Some(CardId::A4b350Lusamine)
        } else if id == "A4b 351"@ {
            Some(CardId::A4b351Lusamine)
        } else if id == "A4b 375"@ {
            Some(CardId::A4b375Lusamine)
        } else if id == "A4 157"@ {
            Some(CardId::A4157Lyra)
        } else if id == "A4 197"@ {
            Some(CardId::A4197Lyra)
        } else if id == "A4b 332"@ {
            Some(CardId::A4b332Lyra)
        } else if id == "A4b 333"@ {
            Some(CardId::A4b333Lyra)
        } else if id == "A3b 066"@ {
            Some(CardId::A3b066EeveeBag)
        } else if id == "A3b 107"@ {
            Some(CardId::A3b107EeveeBag)
        } else if id == "A4b 308"@ {
            Some(CardId::A4b308EeveeBag)
        } else if id == "A4b 309"@ {
            Some(CardId::A4b309EeveeBag)
        } else if id == "A4 158"@ {
            Some(CardId::A4158Silver)
        } else if id == "A4 198"@ {
            Some(CardId::A4198Silver)
        } else if id == "A4b 336"@ {
            Some(CardId::A4b336Silver)
        } else if id == "A4b 337"@ {
            Some(CardId::A4b337Silver)
        } else if id == "P-A 002"@ {
            Some(CardId::PA002XSpeed)
        } else if id == "P-A 005"@ {
            Some(CardId::PA005PokeBall)
        } else if id == "A2b 111"@ {
            Some(CardId::A2b111PokeBall)
        } else if id == "P-A 006"@ {
            Some(CardId::PA006RedCard)
        } else if id == "P-A 007"@ {
            Some(CardId::PA007ProfessorsResearch)
        } else if id == "A4b 373"@ {
            Some(CardId::A4b373ProfessorsResearch)
        } else if id == "A1 223"@ {
            Some(CardId::A1223Giovanni)
        } else if id == "A1 270"@ {
            Some(CardId::A1270Giovanni)
        } else if id == "A4b 334"@ {
            Some(CardId::A4b334Giovanni)
        } else if id == "A4b 335"@ {
            Some(CardId::A4b335Giovanni)
        } else if id == "A1a 065"@ {
            Some(CardId::A1a065MythicalSlab)
        } else if id == "A1a 068"@ {
            Some(CardId::A1a068Leaf)
        } else if id == "A1a 082"@ {
            Some(CardId::A1a082Leaf)
        } else if id == "A4b 346"@ {
            Some(CardId::A4b346Leaf)
        } else if id == "A4b 347"@ {
            Some(CardId::A4b347Leaf)
        } else if id == "A2b 071"@ {
            Some(CardId::A2b071Red)
        } else if id == "A2b 090"@ {
            Some(CardId::A2b090Red)
        } else if id == "A4b 352"@ {
            Some(CardId::A4b352Red)
        } else if id == "A4b 353"@ {
            Some(CardId::A4b353Red)
        } else if id == "A1 175"@ {
            Some(CardId::A1175Muk)
        } else if id == "A1 177"@ {
            Some(CardId::A1177Weezing)
        } else if id == "A1 243"@ {
            Some(CardId::A1243Weezing)
        } else {
            None
        }
    }

    /// Looks an identity up in the list.
    pub fn from_card_id(id: &str) -> (found: Option<CardId>)
        ensures
            found == CardId::of_id(id@),
    {
        if str_eq(id, "P-A 001") {
            Some(CardId::PA001Potion)
        } else if str_eq(id, "A1 219") {
            Some(CardId::A1219Erika)
        } else if str_eq(id, "A1 266") {
            Some(CardId::A1266Erika)
        } else if str_eq(id, "A4b 328") {
            Some(CardId::A4b328Erika)
        } else if str_eq(id, "A4b 329") {
            Some(CardId::A4b329Erika)
        } else if str_eq(id, "A1 220") {
            Some(CardId::A1220Misty)
        } else if str_eq(id, "A1 267") {
            Some(CardId::A1267Misty)
        } else if str_eq(id, "A2a 072") {
            Some(CardId::A2a072Irida)
        } else if str_eq(id, "A2a 087") {
            Some(CardId::A2a087Irida)
        } else if str_eq(id, "A4b 330") {
            Some(CardId::A4b330Irida)
        } else if str_eq(id, "A4b 331") {
            Some(CardId::A4b331Irida)
        } else if str_eq(id, "A3 155") {
            Some(CardId::A3155Lillie)
        } else if str_eq(id, "A3 197") {
            Some(CardId::A3197Lillie)
        } else if str_eq(id, "A3 209") {
            Some(CardId::A3209Lillie)
        } else if str_eq(id, "A4b 348") {
            Some(CardId::A4b348Lillie)
        } else if str_eq(id, "A4b 349") {
            Some(CardId::A4b349Lillie)
        } else if str_eq(id, "A4b 374") {
            Some(CardId::A4b374Lillie)
        } else if str_eq(id, "A1 222") {
            Some(CardId::A1222Koga)
        } else if str_eq(id, "A1 269") {
            Some(CardId::A1269Koga)
        } else if str_eq(id, "A1 225") {
            Some(CardId::A1225Sabrina)
        } else if str_eq(id, "A1 272") {
            Some(CardId::A1272Sabrina)
        } else if str_eq(id, "A4b 338") {
            Some(CardId::A4b338Sabrina)
        } else if str_eq(id, "A4b 339") {
            Some(CardId::A4b339Sabrina)
        } else if str_eq(id, "A2 150") {
            Some(CardId::A2150Cyrus)
        } else if str_eq(id, "A2 190") {
            Some(CardId::A2190Cyrus)
        } else if str_eq(id, "A4b 326") {
            Some(CardId::A4b326Cyrus)
        } else if str_eq(id, "A4b 327") {
            Some(CardId::A4b327Cyrus)
        } else if str_eq(id, "A2 155") {
            Some(CardId::A2155Mars)
        } else if str_eq(id, "A2 195") {
            Some(CardId::A2195Mars)
        } else if str_eq(id, "A4b 344") {
            Some(CardId::A4b344Mars)
        } else if str_eq(id, "A4b 345") {
            Some(CardId::A4b345Mars)
        } else if str_eq(id, "A3 144") {
            Some(CardId::A3144RareCandy)
        } else if str_eq(id, "A4b 314") {
            Some(CardId::A4b314RareCandy)
        } else if str_eq(id, "A4b 315") {
            Some(CardId::A4b315RareCandy)
        } else if str_eq(id, "A4b 379") {
            Some(CardId::A4b379RareCandy)
        } else if str_eq(id, "A2b 070") {
            Some(CardId::A2b070PokemonCenterLady)
        } else if str_eq(id, "A2b 089") {
            Some(CardId::A2b089PokemonCenterLady)
        } else if str_eq(id, "A4 151") {
            Some(CardId::A4151ElementalSwitch)
        } else if str_eq(id, "A4b 310") {
            Some(CardId::A4b310ElementalSwitch)
        } else if str_eq(id, "A4b 311") {
            Some(CardId::A4b311ElementalSwitch)
        } else if str_eq(id, "A3a 064") {
            Some(CardId::A3a064Repel)
        } else if str_eq(id, "A2 146") {
            Some(CardId::A2146PokemonCommunication)
        } else if str_eq(id, "A4b 316") {
            Some(CardId::A4b316PokemonCommunication)
        } else if str_eq(id, "A4b 317") {
            Some(CardId::A4b317PokemonCommunication)
        } else if str_eq(id, "A3a 067") {
            Some(CardId::A3a067Gladion)
        } else if str_eq(id, "A3a 081") {
            Some(CardId::A3a081Gladion)
        } else if str_eq(id, "A3a 069") {
            Some(CardId::A3a069Lusamine)
        } else if str_eq(id, "A3a 083") {
            Some(CardId::A3a083Lusamine)
        } else if str_eq(id, "A4b 350") {
            Some(CardId::A4b350Lusamine)
        } else if str_eq(id, "A4b 351") {
            Some(CardId::A4b351Lusamine)
        } else if str_eq(id, "A4b 375") {
            Some(CardId::A4b375Lusamine)
        } else if str_eq(id, "A4 157") {
            Some(CardId::A4157Lyra)
        } else if str_eq(id, "A4 197") {
            Some(CardId::A4197Lyra)
        } else if str_eq(id, "A4b 332") {
            Some(CardId::A4b332Lyra)
        } else if str_eq(id, "A4b 333") {
            Some(CardId::A4b333Lyra)
        } else if str_eq(id, "A3b 066") {
            Some(CardId::A3b066EeveeBag)
        } else if str_eq(id, "A3b 107") {
            Some(CardId::A3b107EeveeBag)
        } else if str_eq(id, "A4b 308") {
            Some(CardId::A4b308EeveeBag)
        } else if str_eq(id, "A4b 309") {
            Some(CardId::A4b309EeveeBag)
        } else if str_eq(id, "A4 158") {
            Some(CardId::A4158Silver)
        } else if str_eq(id, "A4 198") {
            Some(CardId::A4198Silver)
        } else if str_eq(id, "A4b 336") {
            Some(CardId::A4b336Silver)
        } else if str_eq(id, "A4b 337") {
            Some(CardId::A4b337Silver)
        } else if str_eq(id, "P-A 002") {
            Some(CardId::PA002XSpeed)
        } else if str_eq(id, "P-A 005") {
            Some(CardId::PA005PokeBall)
        } else if str_eq(id, "A2b 111") {
            Some(CardId::A2b111PokeBall)
        } else if str_eq(id, "P-A 006") {
            Some(CardId::PA006RedCard)
        } else if str_eq(id, "P-A 007") {
            Some(CardId::PA007ProfessorsResearch)
        } else if str_eq(id, "A4b 373") {
            Some(CardId::A4b373ProfessorsResearch)
        } else if str_eq(id, "A1 223") {
            Some(CardId::A1223Giovanni)
        } else if str_eq(id, "A1 270") {
            Some(CardId::A1270Giovanni)
        } else if str_eq(id, "A4b 334") {
            Some(CardId::A4b334Giovanni)
        } else if str_eq(id, "A4b 335") {
            Some(CardId::A4b335Giovanni)
        } else if str_eq(id, "A1a 065") {
            Some(CardId::A1a065MythicalSlab)
        } else if str_eq(id, "A1a 068") {
            Some(CardId::A1a068Leaf)
        } else if str_eq(id, "A1a 082") {
            Some(CardId::A1a082Leaf)
        } else if str_eq(id, "A4b 346") {
            Some(CardId::A4b346Leaf)
        } else if str_eq(id, "A4b 347") {
            Some(CardId::A4b347Leaf)
        } else if str_eq(id, "A2b 071") {
            Some(CardId::A2b071Red)
        } else if str_eq(id, "A2b 090") {
            Some(CardId::A2b090Red)
        } else if str_eq(id, "A4b 352") {
            Some(CardId::A4b352Red)
        } else if str_eq(id, "A4b 353") {
            Some(CardId::A4b353Red)
        } else if str_eq(id, "A1 175") {
            Some(CardId::A1175Muk)
        } else if str_eq(id, "A1 177") {
            Some(CardId::A1177Weezing)
        } else if str_eq(id, "A1 243") {
            Some(CardId::A1243Weezing)
        } else {
            None
        }
    }
}

} // verus!
