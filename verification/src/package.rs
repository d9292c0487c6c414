use vstd::prelude::*;

use crate::dup::Duplicate;

verus! {

/// An attribute of an NFT, as the SNIP-721 metadata standard describes it.
#[derive(Clone, Debug, PartialEq)]
pub struct Trait {
    /// how the trait should be displayed
    pub display_type: Option<String>,
    /// name of the trait
    pub trait_type: Option<String>,
    /// value of the trait
    pub value: String,
    /// optional maximum for numerical traits
    pub max_value: Option<String>,
}

/// The contents of a [`Trait`].
pub struct TraitView {
    pub display_type: Option<Seq<char>>,
    pub trait_type: Option<Seq<char>>,
    pub value: Seq<char>,
    pub max_value: Option<Seq<char>>,
}

impl DeepView for Trait {
    type V = TraitView;

    open spec fn deep_view(&self) -> TraitView {
        TraitView {
            display_type: self.display_type.deep_view(),
            trait_type: self.trait_type.deep_view(),
            value: self.value@,
            max_value: self.max_value.deep_view(),
        }
    }
}

impl Duplicate for Trait {
    fn duplicate(&self) -> (r: Trait) {
        Trait {
            display_type: self.display_type.duplicate(),
            trait_type: self.trait_type.duplicate(),
            value: self.value.duplicate(),
            max_value: self.max_value.duplicate(),
        }
    }
}

/// Basic authentication data of a media file.
#[derive(Clone, Debug, PartialEq)]
pub struct Authentication {
    /// a decryption key or a password
    pub key: Option<String>,
    /// a user name for basic authentication
    pub user: Option<String>,
}

/// A media file attached to an NFT.
#[derive(Clone, Debug, PartialEq)]
pub struct MediaFile {
    /// the kind of file ("image", "video", ...)
    pub file_type: Option<String>,
    /// the file extension
    pub extension: Option<String>,
    /// authentication needed to read the file
    pub authentication: Option<Authentication>,
    /// where the file lies
    pub url: String,
}

/// On-chain metadata of an NFT.
#[derive(Clone, Debug, PartialEq)]
pub struct Extension {
    /// url to the image
    pub image: Option<String>,
    /// raw SVG image data
    pub image_data: Option<String>,
    /// url to view the item on a site
    pub external_url: Option<String>,
    /// item description
    pub description: Option<String>,
    /// name of the item
    pub name: Option<String>,
    /// item attributes
    pub attributes: Option<Vec<Trait>>,
    /// background color as six hexadecimal digits
    pub background_color: Option<String>,
    /// url to a multimedia attachment
    pub animation_url: Option<String>,
    /// url to a video
    pub youtube_url: Option<String>,
    /// media files
    pub media: Option<Vec<MediaFile>>,
    /// trait types that are kept in the private metadata
    pub protected_attributes: Option<Vec<String>>,
}

/// The metadata of an NFT: a uri for off-chain metadata, or on-chain metadata.
#[derive(Clone, Debug, PartialEq)]
pub struct Metadata {
    /// uri of off-chain metadata
    pub token_uri: Option<String>,
    /// on-chain metadata
    pub extension: Option<Extension>,
}

/// Serial number to give an NFT when minting.
#[derive(Clone, Copy, Debug, PartialEq, Eq)]
pub struct SerialNumber {
    /// optional number of the mint run this token is minted in
    pub mint_run: Option<u32>,
    /// serial number of the token in its mint run
    pub serial_number: u32,
    /// optional number of tokens minted in this run
    pub quantity_minted_this_run: Option<u32>,
}

/// A single royalty.
#[derive(Clone, Debug, PartialEq)]
pub struct Royalty {
    /// address that receives the royalty
    pub recipient: String,
    /// royalty rate
    pub rate: u16,
}

/// All royalty information of a token.
#[derive(Clone, Debug, PartialEq)]
pub struct RoyaltyInfo {
    /// number of decimal places in the rates
    pub decimal_places_in_rates: u8,
    /// the royalties
    pub royalties: Vec<Royalty>,
}

/// The message that the sale contract executes on the SNIP-721 contract.
#[derive(Clone, Debug, PartialEq)]
pub enum ExecuteMsg {
    MintNft {
        /// optional token id; the NFT contract chooses one when it is omitted
        token_id: Option<String>,
        /// optional owner; the message sender owns the token when it is omitted
        owner: Option<String>,
        /// optional public metadata
        public_metadata: Option<Metadata>,
        /// optional private metadata
        private_metadata: Option<Metadata>,
        /// optional serial number
        serial_number: Option<SerialNumber>,
        /// optional royalty information
        royalty_info: Option<RoyaltyInfo>,
        /// whether the token is transferable; true when omitted
        transferable: Option<bool>,
        /// optional memo
        memo: Option<String>,
        /// optional padding
        padding: Option<String>,
    },
}

} // verus!
