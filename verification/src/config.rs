//! One dataset descriptor of the manifest.

use vstd::prelude::*;
use vstd::string::*;

verus! {

/// Describes one ticker vector dataset.
///
/// Only `path` is required. An absent field means "not stated": no default
/// stands in for it.
#[derive(Debug, PartialEq, Eq)]
pub struct TickerVectorConfig {
    /// Where the dataset lives: a file name below the base URL, or a
    /// complete URL.
    pub path: String,
    /// What the dataset is.
    pub description: Option<String>,
    /// The notebook that produced the dataset. The spelling is the one of
    /// the manifest.
    pub proto_noteboook: Option<String>,
    /// When the dataset was last trained.
    pub last_training_time: Option<String>,
    /// Number of features used in the dataset.
    pub features: Option<u32>,
    /// Dimensions of a vector.
    pub vector_dimensions: Option<u32>,
    /// Length of the sequences used in training.
    pub training_sequence_length: Option<u32>,
    /// The data sources used for training, in the manifest's order.
    pub training_data_sources: Option<Vec<String>>,
}

/// A descriptor as plain mathematical data.
pub struct TickerVectorConfigView {
    pub path: Seq<char>,
    pub description: Option<Seq<char>>,
    pub proto_noteboook: Option<Seq<char>>,
    pub last_training_time: Option<Seq<char>>,
    pub features: Option<u32>,
    pub vector_dimensions: Option<u32>,
    pub training_sequence_length: Option<u32>,
    pub training_data_sources: Option<Seq<Seq<char>>>,
}

/// The characters of an optional string.
pub open spec fn text_view(text: Option<String>) -> Option<Seq<char>> {
    match text {
        Some(s) => Some(s@),
        None => None,
    }
}

/// The characters of each string of a list.
pub open spec fn list_view(list: Seq<String>) -> Seq<Seq<char>> {
    Seq::new(list.len(), |i: int| list[i]@)
}

/// The characters of each string of an optional list.
pub open spec fn text_list_view(list: Option<Vec<String>>) -> Option<Seq<Seq<char>>> {
    match list {
        Some(v) => Some(list_view(v@)),
        None => None,
    }
}

impl View for TickerVectorConfig {
    type V = TickerVectorConfigView;

    open spec fn view(&self) -> TickerVectorConfigView {
        TickerVectorConfigView {
            path: self.path@,
            description: text_view(self.description),
            proto_noteboook: text_view(self.proto_noteboook),
            last_training_time: text_view(self.last_training_time),
            features: self.features,
            vector_dimensions: self.vector_dimensions,
            training_sequence_length: self.training_sequence_length,
            training_data_sources: text_list_view(self.training_data_sources),
        }
    }
}

impl Clone for TickerVectorConfig {
    /// A copy that agrees with `self` field for field.
    fn clone(&self) -> (copy: Self)
        ensures
            copy@ == self@,
    {
        let copy = TickerVectorConfig {
            path: self.path.clone(),
            description: self.description.clone(),
            proto_noteboook: self.proto_noteboook.clone(),
            last_training_time: self.last_training_time.clone(),
            features: self.features,
            vector_dimensions: self.vector_dimensions,
            training_sequence_length: self.training_sequence_length,
            training_data_sources: self.training_data_sources.clone(),
        };
        proof {
            if self.training_data_sources is Some {
                let list = self.training_data_sources->0;
                let copied = copy.training_data_sources->0;
                assert(list_view(copied@) =~= list_view(list@));
            }
        }
        copy
    }
}

} // verus!
