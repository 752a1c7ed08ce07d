use kira::sound::static_sound::StaticSoundData;
use kira::sound::FromFileError;
use vstd::prelude::*;

verus! {

#[verifier::external_type_specification]
#[verifier::external_body]
pub struct ExIoError(std::io::Error);

#[verifier::external_type_specification]
#[verifier::external_body]
pub struct ExFromFileError(FromFileError);

#[verifier::external_type_specification]
#[verifier::external_body]
pub struct ExStaticSoundData(StaticSoundData);

/// Why a sound file could not be loaded.
#[derive(Debug)]
pub enum KiraError {
    /// The file could not be read.
    IoError(std::io::Error),
    /// The bytes that were read are not a sound that kira can decode.
    FromFileError(FromFileError),
}

impl KiraError {
    /// The text shown for this error.
    pub open spec fn message(self) -> Seq<char> {
        match self {
            KiraError::IoError(_) => "An error occurred while reading the file from the filesystem"@,
            KiraError::FromFileError(_) => "An error occurred when parsing the file"@,
        }
    }

    /// Renders the error as text.
    pub fn to_string(&self) -> (text: String)
        ensures
            text@ == self.message(),
    {
        match self {
            KiraError::IoError(_) => "An error occurred while reading the file from the filesystem".to_owned(),
            KiraError::FromFileError(_) => "An error occurred when parsing the file".to_owned(),
        }
    }
}

/// A sound that was loaded as an asset.
pub struct SoundAsset<T> {
    pub sound: T,
}

/// Sound data that kira holds in memory all at once.
pub struct KiraStaticSoundData(pub StaticSoundData);

pub type KiraStaticSoundAsset = SoundAsset<KiraStaticSoundData>;

/// Loads sound files into static sound assets.
pub struct StaticSoundFileLoader;

impl StaticSoundFileLoader {
    /// The asset, or the error, that kira's answer to a decoding attempt
    /// amounts to: the sound becomes the asset, and the decoder's error is
    /// passed on as it is.
    pub fn asset_from_decoded(decoded: Result<StaticSoundData, FromFileError>) -> (loaded: Result<
        KiraStaticSoundAsset,
        KiraError,
    >)
        ensures
            match decoded {
                Ok(sound) => loaded == Ok::<KiraStaticSoundAsset, KiraError>(
                    SoundAsset { sound: KiraStaticSoundData(sound) },
                ),
                Err(error) => loaded == Err::<KiraStaticSoundAsset, KiraError>(
                    KiraError::FromFileError(error),
                ),
            },
    {
        match decoded {
            Ok(sound) => Ok(SoundAsset { sound: KiraStaticSoundData(sound) }),
            Err(error) => Err(KiraError::FromFileError(error)),
        }
    }

    /// The file extensions that this loader takes, in the order in which
    /// they are registered.
    pub fn extensions(&self) -> (list: &'static [&'static str])
        ensures
            list@.len() == 6,
            list@[0]@ == "ogg"@,
            list@[1]@ == "oga"@,
            list@[2]@ == "spx"@,
            list@[3]@ == "flac"@,
            list@[4]@ == "mp3"@,
            list@[5]@ == "wav"@,
    {
        &["ogg", "oga", "spx", "flac", "mp3", "wav"]
    }
}

} // verus!
