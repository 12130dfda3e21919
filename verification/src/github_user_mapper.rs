use vstd::prelude::*;
use crate::entities;
use crate::models;

verus! {

/// The stored record that a freshly fetched profile becomes, given the
/// absolute expiry timestamp the new row is to carry.
pub open spec fn spec_to_entity(model: models::GithubUser, expiration: i64) -> entities::GithubUser {
    entities::GithubUser {
        id: model.id,
        username: model.login,
        name: model.name,
        location: model.location,
        avatar_url: model.avatar_url,
        expiration,
    }
}

/// The profile that a stored record reports back to callers; the expiry
/// timestamp is the store's own bookkeeping and is dropped.
pub open spec fn spec_to_model(entity: entities::GithubUser) -> models::GithubUser {
    models::GithubUser {
        id: entity.id,
        login: entity.username,
        name: entity.name,
        location: entity.location,
        avatar_url: entity.avatar_url,
    }
}

/// Builds the store row for a fetched profile, stamped with the absolute
/// expiry timestamp `expiration`.
pub fn to_entity(model: &models::GithubUser, expiration: i64) -> (r: entities::GithubUser)
    ensures
        r == spec_to_entity(*model, expiration),
{
    let model_clone = model.clone();
    entities::GithubUser {
        id: model_clone.id,
        username: model_clone.login,
        name: model_clone.name,
        location: model_clone.location,
        avatar_url: model_clone.avatar_url,
        expiration,
    }
}

/// Reads a stored row back as the profile shape the service returns.
pub fn to_model(entity: &entities::GithubUser) -> (r: models::GithubUser)
    ensures
        r == spec_to_model(*entity),
{
    let entity_clone = entity.clone();
    models::GithubUser {
        id: entity_clone.id,
        login: entity_clone.username,
        name: entity_clone.name,
        location: entity_clone.location,
        avatar_url: entity_clone.avatar_url,
    }
}

} // verus!
