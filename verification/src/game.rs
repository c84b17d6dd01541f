//! Game-level vocabulary: playlists, ranks and divisions, and the app's panel list.

pub mod playlist;
pub mod rank;
