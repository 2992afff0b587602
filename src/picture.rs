//! The daily picture record of the remote source, its market tags, and the
//! errors of resolving and downloading it.

use vstd::prelude::*;
use vstd::string::*;
use crate::date::{decoded_instant, has_valid_date, parse_bing_date, MalformedDate};

verus! {

/// Endpoint that returns the metadata of the recent daily pictures.
pub const BING_IMAGE_API_BASE_URL: &'static str = "https://www.bing.com/HPImageArchive.aspx";

/// Host that the relative image paths of the metadata refer to.
pub const BING_BASE_URL: &'static str = "https://www.bing.com";

/// Query of the metadata request: JSON format, starting at today, one picture.
pub const BING_IMAGE_QUERY: &'static str = "format=js&idx=0&n=1";

/// Suffix of the full-resolution image beside its base path.
pub const UHD_SUFFIX: &'static str = "_UHD.jpg";

/// Region whose daily picture is shown.
#[derive(Debug, Clone, Copy, PartialEq, Eq, Structural)]
pub enum Market {
    DanishDenmark,
    EnglishGB,
    EnglishUS,
}

pub open spec fn market_tag(m: Market) -> Seq<char> {
    match m {
        Market::DanishDenmark => "da-DK"@,
        Market::EnglishGB => "en-GB"@,
        Market::EnglishUS => "en-US"@,
    }
}

/// A market tag that names none of the known markets.
#[derive(Debug, Clone, PartialEq, Eq)]
pub struct UnknownMarket(pub String);

impl Market {
    /// The locale tag of the market, such as `en-US`.
    pub fn to_string(&self) -> (r: String)
        ensures
            r@ == market_tag(*self),
    {
        match self {
            Market::DanishDenmark => String::from_str("da-DK"),
            Market::EnglishGB => String::from_str("en-GB"),
            Market::EnglishUS => String::from_str("en-US"),
        }
    }

    /// The market whose locale tag is `s`.
    pub fn from_str(s: &str) -> (r: Result<Market, UnknownMarket>)
        ensures
            r matches Ok(m) ==> market_tag(m) == s@,
            r is Err <==> (forall|m: Market| market_tag(m) != s@),
            r matches Err(e) ==> e.0@ == s@,
    {
        proof {
            reveal_strlit("da-DK");
            reveal_strlit("en-GB");
            reveal_strlit("en-US");
        }
        if crate::text::same_text(s, "da-DK") {
            assert(market_tag(Market::DanishDenmark) == s@);
            Ok(Market::DanishDenmark)
        } else if crate::text::same_text(s, "en-GB") {
            assert(market_tag(Market::EnglishGB) == s@);
            Ok(Market::EnglishGB)
        } else if crate::text::same_text(s, "en-US") {
            assert(market_tag(Market::EnglishUS) == s@);
            Ok(Market::EnglishUS)
        } else {
            proof {
                assert forall|m: Market| market_tag(m) != s@ by {
                    match m {
                        Market::DanishDenmark => {},
                        Market::EnglishGB => {},
                        Market::EnglishUS => {},
                    }
                }
            }
            Err(UnknownMarket(String::from_str(s)))
        }
    }
}

impl Default for Market {
    fn default() -> (r: Market)
        ensures
            r == Market::EnglishUS,
    {
        Market::EnglishUS
    }
}

/// One day's picture as the metadata source describes it.
#[derive(Debug, Clone, PartialEq, Eq)]
pub struct BingImage {
    pub start_date: String,
    pub full_start_date: String,
    pub end_date: String,
    pub url: String,
    pub url_base: String,
    pub title: String,
}

/// Name of the local file of a picture: `<startdate>-<title>.jpg`.
pub open spec fn image_file_name(start_date: Seq<char>, title: Seq<char>) -> Seq<char> {
    start_date + seq!['-'] + title + seq!['.', 'j', 'p', 'g']
}

impl BingImage {
    /// Address of the full-resolution image: the host, the base path and `_UHD.jpg`.
    pub fn get_image_url(&self) -> (r: String)
        ensures
            r@ == BING_BASE_URL@ + self.url_base@ + UHD_SUFFIX@,
    {
        let mut r = String::from_str(BING_BASE_URL);
        r.append(self.url_base.as_str());
        r.append(UHD_SUFFIX);
        r
    }

    /// Name of the local copy; the same start date and title always give the same name.
    pub fn get_image_file_name(&self) -> (r: String)
        ensures
            r@ == image_file_name(self.start_date@, self.title@),
    {
        let mut r = self.start_date.clone();
        r.append("-");
        r.append(self.title.as_str());
        r.append(".jpg");
        proof {
            reveal_strlit("-");
            reveal_strlit(".jpg");
        }
        r
    }

    /// The instant after which the picture expires.
    pub fn get_end_date(&self) -> (r: Result<i64, MalformedDate>)
        ensures
            r is Ok <==> has_valid_date(self.end_date@),
            r is Ok ==> r->Ok_0 == decoded_instant(self.end_date@),
    {
        parse_bing_date(self.end_date.as_str())
    }
}

/// Failure to obtain the metadata of today's picture.
#[derive(Debug, Clone, PartialEq, Eq)]
pub enum ImageOfTheDayError {
    /// The request failed, or its answer could not be read; the text says why.
    RequestError(String),
    /// The answer listed no picture.
    NoImagesFound,
}

/// Failure to store a picture locally.
#[derive(Debug, Clone, PartialEq, Eq)]
pub enum DownloadImageError {
    /// The request for the image failed; the text says why.
    RequestError(String),
    /// Writing the file at the path failed; the second text says why.
    IoError(String, String),
}

/// The picture of the day out of the records an answer lists: the first one.
pub fn image_of_the_day(images: Vec<BingImage>) -> (r: Result<BingImage, ImageOfTheDayError>)
    ensures
        images@.len() == 0 <==> r == Err::<BingImage, ImageOfTheDayError>(
            ImageOfTheDayError::NoImagesFound,
        ),
        images@.len() > 0 ==> r == Ok::<BingImage, ImageOfTheDayError>(images@[0]),
{
    let mut images = images;
    if images.len() == 0 {
        Err(ImageOfTheDayError::NoImagesFound)
    } else {
        Ok(images.swap_remove(0))
    }
}

} // verus!
