//! Handshake tokens: random secrets scoped to a namespace and a
//! foreign id (a group chat id, or 0 for 1:1 invitations).

use vstd::prelude::*;

use crate::chat::ChatId;
use crate::context::Context;

verus! {

/// The two namespaces of handshake secrets.
#[derive(Debug, Copy, Clone, PartialEq, Eq, Structural)]
pub enum Namespace {
    /// Allows starting the handshake.
    InviteNumber,
    /// Authenticates the joiner's request.
    Auth,
}

/// One stored token.
#[derive(Debug, Clone)]
pub struct TokenRecord {
    /// The namespace the token belongs to.
    pub namespace: Namespace,
    /// The chat the token was issued for; the unset chat id for 1:1.
    pub foreign_id: ChatId,
    /// The secret itself.
    pub token: String,
}

/// Whether a token with this value exists in the namespace.
pub open spec fn spec_token_exists(ctx: Context, namespace: Namespace, token: Seq<char>) -> bool {
    exists|i: int|
        0 <= i < ctx.tokens@.len() && (#[trigger] ctx.tokens@[i]).namespace == namespace
            && ctx.tokens@[i].token@ == token
}

/// Whether a token was already issued for this namespace and foreign id.
pub open spec fn spec_has_token_for(ctx: Context, namespace: Namespace, foreign_id: ChatId) -> bool {
    exists|i: int|
        0 <= i < ctx.tokens@.len() && (#[trigger] ctx.tokens@[i]).namespace == namespace
            && ctx.tokens@[i].foreign_id.id() == foreign_id.id()
}

/// Return the token issued for this namespace and foreign id, issuing
/// `fresh` as the new token if none exists yet.
///
/// The secret itself must be random; the embedder draws `fresh` from
/// its entropy source, and it is used only when no token exists yet.
pub fn lookup_or_new(ctx: &mut Context, namespace: Namespace, foreign_id: ChatId, fresh: &str) -> (r:
    String)
    ensures
        spec_has_token_for(*old(ctx), namespace, foreign_id) ==> *final(ctx) == *old(ctx) && exists|
            i: int,
        |
            0 <= i < old(ctx).tokens@.len() && (#[trigger] old(ctx).tokens@[i]).namespace
                == namespace && old(ctx).tokens@[i].foreign_id.id() == foreign_id.id() && r@ == old(
                ctx,
            ).tokens@[i].token@,
        !spec_has_token_for(*old(ctx), namespace, foreign_id) ==> {
            &&& r@ == fresh@
            &&& final(ctx).tokens@.len() == old(ctx).tokens@.len() + 1
            &&& final(ctx).tokens@ == old(ctx).tokens@.push(final(ctx).tokens@.last())
            &&& final(ctx).tokens@.last().namespace == namespace
            &&& final(ctx).tokens@.last().foreign_id == foreign_id
            &&& final(ctx).tokens@.last().token@ == fresh@
            &&& *final(ctx) == (Context { tokens: final(ctx).tokens, ..*old(ctx) })
        },
        spec_token_exists(*final(ctx), namespace, r@),
{
    let n = ctx.tokens.len();
    let mut i: usize = 0;
    while i < n
        invariant
            n == ctx.tokens@.len(),
            0 <= i <= n,
            *ctx == *old(ctx),
            forall|j: int|
                0 <= j < i ==> !((#[trigger] ctx.tokens@[j]).namespace == namespace
                    && ctx.tokens@[j].foreign_id.id() == foreign_id.id()),
        decreases n - i,
    {
        let rec = &ctx.tokens[i];
        let ns_match = match (rec.namespace, namespace) {
            (Namespace::InviteNumber, Namespace::InviteNumber) => true,
            (Namespace::Auth, Namespace::Auth) => true,
            _ => false,
        };
        if ns_match && rec.foreign_id.to_u32() == foreign_id.to_u32() {
            assert(ctx.tokens@[i as int].namespace == namespace && ctx.tokens@[i as int
            ].foreign_id.id() == foreign_id.id());
            return rec.token.clone();
        }
        i += 1;
    }
    let token = fresh.to_owned();
    let rec = TokenRecord { namespace, foreign_id, token: fresh.to_owned() };
    ctx.tokens.push(rec);
    token
}

/// Whether a token with the value `token` exists in the namespace.
pub fn token_exists(ctx: &Context, namespace: Namespace, token: &str) -> (r: bool)
    ensures
        r == spec_token_exists(*ctx, namespace, token@),
{
    let n = ctx.tokens.len();
    let mut i: usize = 0;
    while i < n
        invariant
            n == ctx.tokens@.len(),
            0 <= i <= n,
            forall|j: int|
                0 <= j < i ==> !((#[trigger] ctx.tokens@[j]).namespace == namespace
                    && ctx.tokens@[j].token@ == token@),
        decreases n - i,
    {
        let rec = &ctx.tokens[i];
        let ns_match = match (rec.namespace, namespace) {
            (Namespace::InviteNumber, Namespace::InviteNumber) => true,
            (Namespace::Auth, Namespace::Auth) => true,
            _ => false,
        };
        if ns_match && crate::mimeparser::str_eq(rec.token.as_str(), token) {
            assert(ctx.tokens@[i as int].namespace == namespace && ctx.tokens@[i as int].token@
                == token@);
            return true;
        }
        i += 1;
    }
    false
}

} // verus!
