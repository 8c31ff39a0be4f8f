//! The login flow's computations: the password digest, the bearer token
//! taken from the authorization header, and the sorted favorite list.
use vstd::prelude::*;
use vstd::string::*;

verus! {

use crate::models::{UserAnimeResponse, UserRequest};
use vstd::multiset::Multiset;

/// The hexadecimal digest that the hashing routine assigns to a string.
pub uninterp spec fn sha256_hex_of(s: Seq<char>) -> Seq<char>;

/// Relies on sha256::digest: the hex form of the string's digest, a
/// function of the input alone, sixty-four characters long.
#[verifier::external_body]
fn sha256_hex(s: &str) -> (r: String)
    ensures
        r@ == sha256_hex_of(s@),
        r@.len() == 64,
{
    sha256::digest(s)
}

/// The body of a login or registration request: the username as typed and
/// the digest of the password.
pub fn make_user_request(username: &str, password: &str) -> (r: UserRequest)
    ensures
        r.username@ == username@,
        r.password_hash@ == sha256_hex_of(password@),
{
    UserRequest { username: username.to_owned(), password_hash: sha256_hex(password) }
}

/// The token carried after the "Bearer " prefix of an authorization
/// header.
pub fn bearer_token(header: &str) -> (r: String)
    requires
        header@.len() >= 7,
    ensures
        r@ == header@.skip(7),
{
    let n = header.unicode_len();
    let r = header.substring_char(7, n).to_owned();
    assert(r@ =~= header@.skip(7));
    r
}

/// The authorization header sent with a token.
pub fn auth_header_value(jwt: &str) -> (r: String)
    ensures
        r@ == "Bearer "@ + jwt@,
{
    let mut r = "Bearer ".to_owned();
    r.append(jwt);
    r
}

/// The anime identifiers of a favorite list.
pub open spec fn fav_ids(v: Seq<UserAnimeResponse>) -> Seq<i32> {
    v.map_values(|u: UserAnimeResponse| u.anime_id)
}

/// Whether a sequence of identifiers is in nondecreasing order.
pub open spec fn ids_sorted(s: Seq<i32>) -> bool {
    forall|a: int, b: int| 0 <= a < b < s.len() ==> #[trigger] s[a] <= #[trigger] s[b]
}

/// The anime identifiers of a favorite list, in nondecreasing order:
/// the same identifiers, each as often as it occurs in the list.
pub fn sorted_fav_ids(v: &Vec<UserAnimeResponse>) -> (r: Vec<i32>)
    ensures
        ids_sorted(r@),
        r@.to_multiset() == fav_ids(v@).to_multiset(),
{
    let mut rest: Vec<i32> = Vec::new();
    let n = v.len();
    let mut i: usize = 0;
    while i < n
        invariant
            n == v@.len(),
            0 <= i <= n,
            rest@ == fav_ids(v@.take(i as int)),
        decreases n - i,
    {
        rest.push(v[i].anime_id);
        proof {
            assert(rest@ =~= fav_ids(v@.take(i + 1)));
        }
        i = i + 1;
    }
    assert(v@.take(n as int) =~= v@);
    let mut out: Vec<i32> = Vec::new();
    proof {
        broadcast use vstd::seq_lib::group_to_multiset_ensures;

        assert(out@.to_multiset().add(rest@.to_multiset()) =~= fav_ids(v@).to_multiset());
    }
    while rest.len() > 0
        invariant
            ids_sorted(out@),
            out@.to_multiset().add(rest@.to_multiset()) == fav_ids(v@).to_multiset(),
            forall|a: int, b: int|
                0 <= a < out@.len() && 0 <= b < rest@.len() ==> #[trigger] out@[a]
                    <= #[trigger] rest@[b],
        decreases rest@.len(),
    {
        let mut min_i: usize = 0;
        let mut j: usize = 1;
        let m = rest.len();
        while j < m
            invariant
                0 < m == rest@.len(),
                0 <= min_i < j <= m,
                forall|k: int| 0 <= k < j ==> rest@[min_i as int] <= #[trigger] rest@[k],
            decreases m - j,
        {
            if rest[j] < rest[min_i] {
                min_i = j;
            }
            j = j + 1;
        }
        let ghost old_rest = rest@;
        let ghost old_out = out@;
        let x = rest.remove(min_i);
        out.push(x);
        proof {
            broadcast use vstd::seq_lib::group_to_multiset_ensures;

            assert(x == old_rest[min_i as int]);
            assert(rest@ == old_rest.remove(min_i as int));
            assert(out@ == old_out.push(x));
            assert(out@.to_multiset() =~= old_out.to_multiset().insert(x));
            assert(rest@.to_multiset() =~= old_rest.to_multiset().remove(x));
            assert(old_rest.contains(x));
            assert(old_rest.to_multiset().count(x) > 0);
            assert(out@.to_multiset().add(rest@.to_multiset()) =~= old_out.to_multiset().add(
                old_rest.to_multiset(),
            ));
            assert forall|a: int, b: int|
                0 <= a < out@.len() && 0 <= b < rest@.len() implies #[trigger] out@[a]
                <= #[trigger] rest@[b] by {
                let ob = if b < min_i {
                    b
                } else {
                    b + 1
                };
                assert(rest@[b] == old_rest[ob]);
                if a < out@.len() - 1 {
                    assert(out@[a] == old_out[a]);
                } else {
                    assert(out@[a] == x);
                    assert(old_rest[min_i as int] <= old_rest[ob]);
                }
            }
            assert(ids_sorted(out@)) by {
                assert(forall|a: int| 0 <= a < old_out.len() ==> #[trigger] old_out[a] <= x);
            }
        }
    }
    proof {
        broadcast use vstd::seq_lib::group_to_multiset_ensures;

        assert(rest@.to_multiset() =~= Multiset::<i32>::empty());
        assert(out@.to_multiset() =~= out@.to_multiset().add(rest@.to_multiset()));
    }
    out
}

/// The context after a successful login: the token from the authorization
/// header, the account's name, identifier and favorites, and the favorite
/// identifiers sorted; everything else stays as it was.
pub fn login_success_update(
    ctx: crate::store::AppCtx,
    auth_header: &str,
    user: crate::models::UserForResponse,
) -> (r: crate::store::AppCtx)
    requires
        auth_header@.len() >= 7,
    ensures
        r.jwt matches Some(t) && t@ == auth_header@.skip(7),
        r.username == Some(user.username),
        r.uuid == Some(user.uuid),
        r.fav_anime == Some(user.fav_anime),
        r.fav_anime_id matches Some(ids) && ids_sorted(ids@) && ids@.to_multiset() == fav_ids(
            user.fav_anime@,
        ).to_multiset(),
        r.theme == ctx.theme,
        r.language == ctx.language,
        r.cur_page == ctx.cur_page,
        r.loading_page == ctx.loading_page,
        r.nsfw == ctx.nsfw,
        r.query == ctx.query,
        r.cache == ctx.cache,
        r.hash == ctx.hash,
{
    let ids = sorted_fav_ids(&user.fav_anime);
    let token = bearer_token(auth_header);
    ctx.update_jwt_into(Some(token)).update_username_into(Some(user.username)).update_uuid_into(
        Some(user.uuid),
    ).update_fav_anime_into(Some(user.fav_anime)).update_fav_anime_id_into(Some(ids))
}

/// The endpoint a stored token is checked against.
pub fn login_check_url() -> (r: String)
    ensures
        r@ == crate::BASE_URL@ + "/api/v1/login_check"@,
{
    let mut url = crate::BASE_URL.to_owned();
    url.append("/api/v1/login_check");
    url
}

/// The context after a failed token check: the session fields cleared,
/// everything else as it was.
pub fn logout_update(ctx: crate::store::AppCtx) -> (r: crate::store::AppCtx)
    ensures
        r.jwt is None,
        r.username is None,
        r.uuid is None,
        r.fav_anime == ctx.fav_anime,
        r.fav_anime_id == ctx.fav_anime_id,
        r.theme == ctx.theme,
        r.language == ctx.language,
        r.cur_page == ctx.cur_page,
        r.loading_page == ctx.loading_page,
        r.nsfw == ctx.nsfw,
        r.query == ctx.query,
        r.cache == ctx.cache,
        r.hash == ctx.hash,
{
    ctx.update_jwt_into(None).update_username_into(None).update_uuid_into(None)
}

} // verus!
