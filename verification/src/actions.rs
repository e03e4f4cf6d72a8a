//! Requests and responses exchanged between the controller and the
//! background worker that talks to the station directory.

use vstd::prelude::*;

use crate::station::Station;
use crate::station::Track;

verus! {

/// A failure reported by the station directory client.
#[derive(Debug, Clone)]
pub struct ApiError {
    pub message: String,
}

/// Requests from the controller to the worker.
#[derive(Debug, Clone)]
pub enum Request {
    LoadStations,
    LoadTrackForStation { station_id: String },
}

/// Responses from the worker back to the controller.
#[derive(Debug)]
pub enum Response {
    StationsLoaded(Result<Vec<Station>, ApiError>),
    TrackLoaded { station_id: String, result: Result<Option<Track>, ApiError> },
}

} // verus!
