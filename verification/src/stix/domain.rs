//! Constructors and builders of the STIX attack pattern, threat actor,
//! identity and relationship objects.

use super::{
    add_marking, deterministic_id, random_id_spec, push_marking, random_id, stable_id,
    ExternalReference, StixAttackPattern, StixIdentity, StixRelationship, StixThreatActor,
};
use crate::timestamp::{utc_now, Timestamp};
use vstd::prelude::*;

verus! {

/// `p` is a fresh attack pattern named `name`, created at `now`.
pub open spec fn is_new_attack_pattern(p: StixAttackPattern, name: Seq<char>, now: Timestamp) -> bool {
    &&& p.object_type@ == "attack-pattern"@
    &&& p.spec_version@ == "2.1"@
    &&& p.created == now
    &&& p.modified == now
    &&& p.name@ == name
    &&& p.description is None
    &&& p.aliases@.len() == 0
    &&& p.kill_chain_phases@.len() == 0
    &&& p.external_references@.len() == 0
    &&& p.object_marking_refs@.len() == 0
    &&& p.labels@.len() == 0
}

/// `a` is a fresh threat actor named `name`, created at `now`.
pub open spec fn is_new_threat_actor(a: StixThreatActor, name: Seq<char>, now: Timestamp) -> bool {
    &&& a.object_type@ == "threat-actor"@
    &&& a.spec_version@ == "2.1"@
    &&& a.created == now
    &&& a.modified == now
    &&& a.name@ == name
    &&& a.description is None
    &&& a.aliases@.len() == 0
    &&& a.threat_actor_types@.len() == 0
    &&& a.first_seen is None
    &&& a.last_seen is None
    &&& a.roles@.len() == 0
    &&& a.goals@.len() == 0
    &&& a.sophistication is None
    &&& a.resource_level is None
    &&& a.primary_motivation is None
    &&& a.external_references@.len() == 0
    &&& a.object_marking_refs@.len() == 0
    &&& a.labels@.len() == 0
}

/// `i` is a fresh identity named `name`, created at `now`.
pub open spec fn is_new_identity(i: StixIdentity, name: Seq<char>, now: Timestamp) -> bool {
    &&& i.object_type@ == "identity"@
    &&& i.spec_version@ == "2.1"@
    &&& i.created == now
    &&& i.modified == now
    &&& i.name@ == name
    &&& i.description is None
    &&& i.identity_class is None
    &&& i.sectors@.len() == 0
    &&& i.contact_information is None
    &&& i.external_references@.len() == 0
    &&& i.object_marking_refs@.len() == 0
    &&& i.labels@.len() == 0
}

/// `r` is a fresh relationship of the given type between the given objects, created at `now`.
pub open spec fn is_new_relationship(
    r: StixRelationship,
    relationship_type: Seq<char>,
    source_ref: Seq<char>,
    target_ref: Seq<char>,
    now: Timestamp,
) -> bool {
    &&& r.object_type@ == "relationship"@
    &&& r.spec_version@ == "2.1"@
    &&& r.created == now
    &&& r.modified == now
    &&& r.relationship_type@ == relationship_type
    &&& r.source_ref@ == source_ref
    &&& r.target_ref@ == target_ref
    &&& r.description is None
    &&& r.external_references@.len() == 0
    &&& r.object_marking_refs@.len() == 0
}

impl StixAttackPattern {
    /// A fresh attack pattern with the given identifier, created at `now`.
    pub fn with_id_at(id: String, name: String, now: Timestamp) -> (r: Self)
        ensures
            is_new_attack_pattern(r, name@, now),
            r.id@ == id@,
    {
        StixAttackPattern {
            object_type: String::from_str("attack-pattern"),
            spec_version: crate::stix::default_spec_version(),
            id,
            created: now,
            modified: now,
            name,
            description: None,
            aliases: Vec::new(),
            kill_chain_phases: Vec::new(),
            external_references: Vec::new(),
            object_marking_refs: Vec::new(),
            labels: Vec::new(),
        }
    }

    /// A new attack pattern made of the given random bytes, created now;
    /// `None` when the system clock cannot be read as a time after 1970.
    pub fn new(name: String, random: [u8; 16]) -> (r: Option<Self>)
        ensures
            r matches Some(x) ==> is_new_attack_pattern(x, name@, x.created) && x.id@ == random_id_spec(
                "attack-pattern"@,
                random@,
            ),
    {
        match utc_now() {
            Some(now) => Some(StixAttackPattern::with_id_at(random_id("attack-pattern", random), name, now)),
            None => None,
        }
    }

    /// A new attack pattern created now, whose identifier is derived from a
    /// source UUID; `None` when the system clock cannot be read as a time after 1970.
    pub fn new_with_deterministic_id(source_uuid: &str, name: String) -> (r: Option<Self>)
        ensures
            r matches Some(x) ==> is_new_attack_pattern(x, name@, x.created) && x.id@ == deterministic_id(
                "attack-pattern"@,
                source_uuid@,
            ),
    {
        match utc_now() {
            Some(now) => Some(StixAttackPattern::with_id_at(stable_id("attack-pattern", source_uuid), name, now)),
            None => None,
        }
    }

    /// Set the description.
    pub fn with_description(self, description: String) -> (r: Self)
        ensures
            r == (StixAttackPattern { description: Some(description), ..self }),
    {
        let mut s = self;
        s.description = Some(description);
        s
    }

    /// Add an external reference.
    pub fn with_external_reference(self, reference: ExternalReference) -> (r: Self)
        ensures
            r.external_references@ == self.external_references@.push(reference),
            r == (StixAttackPattern { external_references: r.external_references, ..self }),
    {
        let mut s = self;
        s.external_references.push(reference);
        s
    }

    /// Add a TLP marking unless it is already present.
    pub fn with_tlp(self, tlp_marking: &str) -> (r: Self)
        ensures
            r.object_marking_refs.deep_view() == add_marking(
                self.object_marking_refs.deep_view(),
                tlp_marking@,
            ),
            r == (StixAttackPattern { object_marking_refs: r.object_marking_refs, ..self }),
    {
        let mut s = self;
        push_marking(&mut s.object_marking_refs, tlp_marking);
        s
    }
}

impl StixThreatActor {
    /// A fresh threat actor with the given identifier, created at `now`.
    pub fn with_id_at(id: String, name: String, now: Timestamp) -> (r: Self)
        ensures
            is_new_threat_actor(r, name@, now),
            r.id@ == id@,
    {
        StixThreatActor {
            object_type: String::from_str("threat-actor"),
            spec_version: crate::stix::default_spec_version(),
            id,
            created: now,
            modified: now,
            name,
            description: None,
            aliases: Vec::new(),
            threat_actor_types: Vec::new(),
            first_seen: None,
            last_seen: None,
            roles: Vec::new(),
            goals: Vec::new(),
            sophistication: None,
            resource_level: None,
            primary_motivation: None,
            external_references: Vec::new(),
            object_marking_refs: Vec::new(),
            labels: Vec::new(),
        }
    }

    /// A new threat actor made of the given random bytes, created now;
    /// `None` when the system clock cannot be read as a time after 1970.
    pub fn new(name: String, random: [u8; 16]) -> (r: Option<Self>)
        ensures
            r matches Some(x) ==> is_new_threat_actor(x, name@, x.created) && x.id@ == random_id_spec(
                "threat-actor"@,
                random@,
            ),
    {
        match utc_now() {
            Some(now) => Some(StixThreatActor::with_id_at(random_id("threat-actor", random), name, now)),
            None => None,
        }
    }

    /// A new threat actor created now, whose identifier is derived from a
    /// source UUID; `None` when the system clock cannot be read as a time after 1970.
    pub fn new_with_deterministic_id(source_uuid: &str, name: String) -> (r: Option<Self>)
        ensures
            r matches Some(x) ==> is_new_threat_actor(x, name@, x.created) && x.id@ == deterministic_id(
                "threat-actor"@,
                source_uuid@,
            ),
    {
        match utc_now() {
            Some(now) => Some(StixThreatActor::with_id_at(stable_id("threat-actor", source_uuid), name, now)),
            None => None,
        }
    }

    /// Set the description.
    pub fn with_description(self, description: String) -> (r: Self)
        ensures
            r == (StixThreatActor { description: Some(description), ..self }),
    {
        let mut s = self;
        s.description = Some(description);
        s
    }

    /// Add an external reference.
    pub fn with_external_reference(self, reference: ExternalReference) -> (r: Self)
        ensures
            r.external_references@ == self.external_references@.push(reference),
            r == (StixThreatActor { external_references: r.external_references, ..self }),
    {
        let mut s = self;
        s.external_references.push(reference);
        s
    }

    /// Add a TLP marking unless it is already present.
    pub fn with_tlp(self, tlp_marking: &str) -> (r: Self)
        ensures
            r.object_marking_refs.deep_view() == add_marking(
                self.object_marking_refs.deep_view(),
                tlp_marking@,
            ),
            r == (StixThreatActor { object_marking_refs: r.object_marking_refs, ..self }),
    {
        let mut s = self;
        push_marking(&mut s.object_marking_refs, tlp_marking);
        s
    }
}

impl StixIdentity {
    /// A fresh identity with the given identifier, created at `now`.
    pub fn with_id_at(id: String, name: String, now: Timestamp) -> (r: Self)
        ensures
            is_new_identity(r, name@, now),
            r.id@ == id@,
    {
        StixIdentity {
            object_type: String::from_str("identity"),
            spec_version: crate::stix::default_spec_version(),
            id,
            created: now,
            modified: now,
            name,
            description: None,
            identity_class: None,
            sectors: Vec::new(),
            contact_information: None,
            external_references: Vec::new(),
            object_marking_refs: Vec::new(),
            labels: Vec::new(),
        }
    }

    /// A new identity made of the given random bytes, created now;
    /// `None` when the system clock cannot be read as a time after 1970.
    pub fn new(name: String, random: [u8; 16]) -> (r: Option<Self>)
        ensures
            r matches Some(x) ==> is_new_identity(x, name@, x.created) && x.id@ == random_id_spec(
                "identity"@,
                random@,
            ),
    {
        match utc_now() {
            Some(now) => Some(StixIdentity::with_id_at(random_id("identity", random), name, now)),
            None => None,
        }
    }

    /// A new identity created now, whose identifier is derived from a
    /// source UUID; `None` when the system clock cannot be read as a time after 1970.
    pub fn new_with_deterministic_id(source_uuid: &str, name: String) -> (r: Option<Self>)
        ensures
            r matches Some(x) ==> is_new_identity(x, name@, x.created) && x.id@ == deterministic_id(
                "identity"@,
                source_uuid@,
            ),
    {
        match utc_now() {
            Some(now) => Some(StixIdentity::with_id_at(stable_id("identity", source_uuid), name, now)),
            None => None,
        }
    }

    /// Set the description.
    pub fn with_description(self, description: String) -> (r: Self)
        ensures
            r == (StixIdentity { description: Some(description), ..self }),
    {
        let mut s = self;
        s.description = Some(description);
        s
    }

    /// Set the identity class.
    pub fn with_identity_class(self, class: String) -> (r: Self)
        ensures
            r == (StixIdentity { identity_class: Some(class), ..self }),
    {
        let mut s = self;
        s.identity_class = Some(class);
        s
    }

    /// Add an external reference.
    pub fn with_external_reference(self, reference: ExternalReference) -> (r: Self)
        ensures
            r.external_references@ == self.external_references@.push(reference),
            r == (StixIdentity { external_references: r.external_references, ..self }),
    {
        let mut s = self;
        s.external_references.push(reference);
        s
    }

    /// Add a TLP marking unless it is already present.
    pub fn with_tlp(self, tlp_marking: &str) -> (r: Self)
        ensures
            r.object_marking_refs.deep_view() == add_marking(
                self.object_marking_refs.deep_view(),
                tlp_marking@,
            ),
            r == (StixIdentity { object_marking_refs: r.object_marking_refs, ..self }),
    {
        let mut s = self;
        push_marking(&mut s.object_marking_refs, tlp_marking);
        s
    }
}

impl StixRelationship {
    /// A fresh relationship with the given identifier, created at `now`.
    pub fn with_id_at(
        id: String,
        relationship_type: String,
        source_ref: String,
        target_ref: String,
        now: Timestamp,
    ) -> (r: Self)
        ensures
            is_new_relationship(r, relationship_type@, source_ref@, target_ref@, now),
            r.id@ == id@,
    {
        StixRelationship {
            object_type: String::from_str("relationship"),
            spec_version: crate::stix::default_spec_version(),
            id,
            created: now,
            modified: now,
            relationship_type,
            source_ref,
            target_ref,
            description: None,
            external_references: Vec::new(),
            object_marking_refs: Vec::new(),
        }
    }

    /// A new relationship made of the given random bytes, created now;
    /// `None` when the system clock cannot be read as a time after 1970.
    pub fn new(relationship_type: String, source_ref: String, target_ref: String, random: [u8; 16]) -> (r: Option<Self>)
        ensures
            r matches Some(x) ==> is_new_relationship(x, relationship_type@, source_ref@, target_ref@, x.created) && x.id@ == random_id_spec(
                "relationship"@,
                random@,
            ),
    {
        match utc_now() {
            Some(now) => Some(StixRelationship::with_id_at(
            random_id("relationship", random),
            relationship_type,
            source_ref,
            target_ref,
            now,
        )),
            None => None,
        }
    }

    /// A new relationship created now, whose identifier is derived from a
    /// source UUID; `None` when the system clock cannot be read as a time after 1970.
    pub fn new_with_deterministic_id(
        source_uuid: &str,
        relationship_type: String,
        source_ref: String,
        target_ref: String,
    ) -> (r: Option<Self>)
        ensures
            r matches Some(x) ==> is_new_relationship(x, relationship_type@, source_ref@, target_ref@, x.created) && x.id@ == deterministic_id(
                "relationship"@,
                source_uuid@,
            ),
    {
        match utc_now() {
            Some(now) => Some(StixRelationship::with_id_at(
            stable_id("relationship", source_uuid),
            relationship_type,
            source_ref,
            target_ref,
            now,
        )),
            None => None,
        }
    }

    /// Add a TLP marking unless it is already present.
    pub fn with_tlp(self, tlp_marking: &str) -> (r: Self)
        ensures
            r.object_marking_refs.deep_view() == add_marking(
                self.object_marking_refs.deep_view(),
                tlp_marking@,
            ),
            r == (StixRelationship { object_marking_refs: r.object_marking_refs, ..self }),
    {
        let mut s = self;
        push_marking(&mut s.object_marking_refs, tlp_marking);
        s
    }
}

} // verus!
