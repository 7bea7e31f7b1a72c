//! JSON: o que o núcleo lê e escreve com o `serde_json`.
//!
//! Um `serde_json::Value` é opaco para a prova; o que ele guarda é dado por
//! [`conteudo_json`], um [`ValorJson`] feito de valores simples. Cada função
//! do `serde_json` que o núcleo chama tem aqui um invólucro cujo contrato diz
//! o que ela faz sobre esse conteúdo — e nada além do que a fonte do
//! `serde_json` mostra.

use vstd::prelude::*;
use vstd::utf8::encode_utf8;

verus! {

broadcast use vstd::string::group_string_axioms;

#[verifier::external_type_specification]
#[verifier::external_body]
pub struct ExValorJson(serde_json::Value);

/// O que um valor JSON guarda.
///
/// Número inteiro (os que o `serde_json` guarda como `u64` ou `i64`) é
/// `Inteiro`; os outros números são `Fracionario`, pelo texto que o
/// `serde_json` escreve para eles. Objeto é um mapa: o `serde_json` sem
/// `preserve_order` guarda e escreve as chaves em ordem.
pub enum ValorJson {
    Nulo,
    Booleano(bool),
    Inteiro(int),
    Fracionario(Seq<char>),
    Texto(Seq<char>),
    Lista(Seq<ValorJson>),
    Objeto(Map<Seq<char>, ValorJson>),
}

/// O conteúdo de um `serde_json::Value`.
pub uninterp spec fn conteudo_json(v: serde_json::Value) -> ValorJson;

/// O que `serde_json::from_str::<Value>` lê de um texto: `None` quando o texto
/// não é JSON.
pub uninterp spec fn json_de_texto(texto: Seq<char>) -> Option<ValorJson>;

/// O texto compacto que o `Display` do `serde_json::Value` escreve.
pub uninterp spec fn texto_json(v: ValorJson) -> Seq<char>;

// ------------------------------------------------------------ leitura

/// O valor de uma chave de um objeto.
pub open spec fn campo_spec(j: ValorJson, k: Seq<char>) -> Option<ValorJson> {
    match j {
        ValorJson::Objeto(m) => if m.contains_key(k) {
            Some(m[k])
        } else {
            None
        },
        _ => None,
    }
}

/// O texto de um valor, quando ele é texto.
pub open spec fn como_texto_spec(j: Option<ValorJson>) -> Option<Seq<char>> {
    match j {
        Some(ValorJson::Texto(s)) => Some(s),
        _ => None,
    }
}

/// O texto de uma chave, ou vazio quando ela não existe ou não é texto.
pub open spec fn texto_ou_vazio(j: ValorJson, k: Seq<char>) -> Seq<char> {
    match como_texto_spec(campo_spec(j, k)) {
        Some(s) => s,
        None => Seq::empty(),
    }
}

/// O natural que cabe em `u64` de uma chave.
pub open spec fn u64_de(j: ValorJson, k: Seq<char>) -> Option<int> {
    match campo_spec(j, k) {
        Some(ValorJson::Inteiro(n)) => if 0 <= n <= u64::MAX {
            Some(n)
        } else {
            None
        },
        _ => None,
    }
}

/// Lê um texto JSON com `serde_json::from_str::<Value>`.
#[verifier::external_body]
pub fn analisar_json(texto: &str) -> (r: Option<serde_json::Value>)
    ensures
        r is Some <==> json_de_texto(texto@) is Some,
        r matches Some(v) ==> conteudo_json(v) == json_de_texto(texto@)->0,
{
    serde_json::from_str::<serde_json::Value>(texto).ok()
}

/// Escreve um valor como texto JSON compacto (`Value::to_string`).
#[verifier::external_body]
pub fn serializar(v: &serde_json::Value) -> (r: String)
    ensures
        r@ == texto_json(conteudo_json(*v)),
{
    v.to_string()
}

/// `Value::get` com uma chave de texto: o valor da chave, se o valor é um
/// objeto e tem a chave.
#[verifier::external_body]
pub fn campo<'a>(v: &'a serde_json::Value, chave: &str) -> (r: Option<&'a serde_json::Value>)
    ensures
        r is Some <==> campo_spec(conteudo_json(*v), chave@) is Some,
        r matches Some(x) ==> Some(conteudo_json(*x)) == campo_spec(conteudo_json(*v), chave@),
{
    v.get(chave)
}

/// `Value::as_str`.
#[verifier::external_body]
pub fn como_str(v: &serde_json::Value) -> (r: Option<&str>)
    ensures
        r is Some <==> conteudo_json(*v) is Texto,
        r matches Some(s) ==> conteudo_json(*v) == ValorJson::Texto(s@),
{
    v.as_str()
}

/// `Value::as_bool`.
#[verifier::external_body]
pub fn como_bool(v: &serde_json::Value) -> (r: Option<bool>)
    ensures
        r is Some <==> conteudo_json(*v) is Booleano,
        r matches Some(b) ==> conteudo_json(*v) == ValorJson::Booleano(b),
{
    v.as_bool()
}

/// `Value::as_i64`: o número inteiro que cabe em `i64`.
#[verifier::external_body]
pub fn como_i64(v: &serde_json::Value) -> (r: Option<i64>)
    ensures
        r is Some <==> (conteudo_json(*v) matches ValorJson::Inteiro(n) && i64::MIN <= n
            <= i64::MAX),
        r matches Some(n) ==> conteudo_json(*v) == ValorJson::Inteiro(n as int),
{
    v.as_i64()
}

/// `Value::as_u64`: o número inteiro que cabe em `u64`.
#[verifier::external_body]
pub fn como_u64(v: &serde_json::Value) -> (r: Option<u64>)
    ensures
        r is Some <==> (conteudo_json(*v) matches ValorJson::Inteiro(n) && 0 <= n <= u64::MAX),
        r matches Some(n) ==> conteudo_json(*v) == ValorJson::Inteiro(n as int),
{
    v.as_u64()
}

/// `Value::as_array`.
#[verifier::external_body]
pub fn como_lista(v: &serde_json::Value) -> (r: Option<&Vec<serde_json::Value>>)
    ensures
        r is Some <==> conteudo_json(*v) is Lista,
        r matches Some(l) ==> conteudo_json(*v) == ValorJson::Lista(
            l@.map_values(|x: serde_json::Value| conteudo_json(x)),
        ),
{
    v.as_array()
}

/// Quantas chaves tem um objeto (`as_object` e `len`); `None` se não é objeto.
#[verifier::external_body]
pub fn chaves_do_objeto(v: &serde_json::Value) -> (r: Option<usize>)
    ensures
        r is Some <==> conteudo_json(*v) is Objeto,
        r matches Some(n) ==> (conteudo_json(*v) matches ValorJson::Objeto(m) && m.dom().len()
            == n && m.dom().finite()),
{
    v.as_object().map(|o| o.len())
}

/// `Value::is_null`.
#[verifier::external_body]
pub fn e_nulo(v: &serde_json::Value) -> (r: bool)
    ensures
        r == (conteudo_json(*v) is Nulo),
{
    v.is_null()
}

/// `Clone` de `serde_json::Value`: a cópia guarda o mesmo conteúdo.
pub assume_specification[ <serde_json::Value as core::clone::Clone>::clone ](
    v: &serde_json::Value,
) -> (r: serde_json::Value)
    ensures
        conteudo_json(r) == conteudo_json(*v),
;

// ---------------------------------------------------------- construção

/// O mapa que se obtém inserindo os pares em ordem (o último vence).
pub open spec fn mapa_de(pares: Seq<(Seq<char>, ValorJson)>) -> Map<Seq<char>, ValorJson>
    decreases pares.len(),
{
    if pares.len() == 0 {
        Map::empty()
    } else {
        mapa_de(pares.drop_last()).insert(pares.last().0, pares.last().1)
    }
}

/// Acrescentar um par ao fim é inserir no mapa.
pub broadcast proof fn lema_mapa_push(pares: Seq<(Seq<char>, ValorJson)>, p: (Seq<char>, ValorJson))
    ensures
        #[trigger] mapa_de(pares.push(p)) == mapa_de(pares).insert(p.0, p.1),
{
    assert(pares.push(p).drop_last() =~= pares);
}

/// Toda chave dos pares está no mapa que eles formam.
pub proof fn lema_chave_no_mapa(pares: Seq<(Seq<char>, ValorJson)>, i: int)
    requires
        0 <= i < pares.len(),
    ensures
        mapa_de(pares).contains_key(pares[i].0),
    decreases pares.len(),
{
    if i < pares.len() - 1 {
        lema_chave_no_mapa(pares.drop_last(), i);
    }
}

/// `Value::Null`.
#[verifier::external_body]
pub fn json_nulo() -> (r: serde_json::Value)
    ensures
        conteudo_json(r) == ValorJson::Nulo,
{
    serde_json::Value::Null
}

/// `Value::String`.
#[verifier::external_body]
pub fn json_texto(s: &str) -> (r: serde_json::Value)
    ensures
        conteudo_json(r) == ValorJson::Texto(s@),
{
    serde_json::Value::String(s.to_string())
}

/// `Value::Bool`.
#[verifier::external_body]
pub fn json_bool(b: bool) -> (r: serde_json::Value)
    ensures
        conteudo_json(r) == ValorJson::Booleano(b),
{
    serde_json::Value::Bool(b)
}

/// `Value::from(i64)`.
#[verifier::external_body]
pub fn json_i64(n: i64) -> (r: serde_json::Value)
    ensures
        conteudo_json(r) == ValorJson::Inteiro(n as int),
{
    serde_json::Value::from(n)
}

/// `Value::from(u64)`.
#[verifier::external_body]
pub fn json_u64(n: u64) -> (r: serde_json::Value)
    ensures
        conteudo_json(r) == ValorJson::Inteiro(n as int),
{
    serde_json::Value::from(n)
}

/// `Value::Array`.
#[verifier::external_body]
pub fn json_lista(itens: Vec<serde_json::Value>) -> (r: serde_json::Value)
    ensures
        conteudo_json(r) == ValorJson::Lista(
            itens@.map_values(|x: serde_json::Value| conteudo_json(x)),
        ),
{
    serde_json::Value::Array(itens)
}

#[verifier::external_type_specification]
#[verifier::external_body]
#[verifier::reject_recursive_types(K)]
#[verifier::reject_recursive_types(V)]
pub struct ExMapaJson<K, V>(serde_json::Map<K, V>);

/// O mapa de um objeto JSON.
pub type MapaJson = serde_json::Map<String, serde_json::Value>;

/// O que um `serde_json::Map` guarda: cada chave com o conteúdo do seu valor.
pub uninterp spec fn conteudo_mapa(m: MapaJson) -> Map<Seq<char>, ValorJson>;

/// O mapa sem chave nenhuma.
pub open spec fn mapa_json_vazio() -> Map<Seq<char>, ValorJson> {
    Map::empty()
}

/// `Map::new`: um mapa vazio.
#[verifier::external_body]
fn mapa_vazio() -> (r: MapaJson)
    ensures
        conteudo_mapa(r) == mapa_json_vazio(),
{
    serde_json::Map::new()
}

/// `Map::insert`: a chave passa a guardar o valor; se ela já estava, o
/// valor antigo é trocado pelo novo (e descartado aqui).
#[verifier::external_body]
fn inserir_no_mapa(m: &mut MapaJson, k: String, v: serde_json::Value)
    ensures
        conteudo_mapa(*final(m)) == conteudo_mapa(*old(m)).insert(k@, conteudo_json(v)),
{
    let _ = m.insert(k, v);
}

/// `Value::Object`: o objeto guarda o que o mapa guarda.
#[verifier::external_body]
fn objeto_do_mapa(m: MapaJson) -> (r: serde_json::Value)
    ensures
        conteudo_json(r) == ValorJson::Objeto(conteudo_mapa(m)),
{
    serde_json::Value::Object(m)
}

/// Um objeto com os pares inseridos em ordem: com chave repetida, fica o
/// último valor dela.
pub fn json_objeto(pares: Vec<(String, serde_json::Value)>) -> (r: serde_json::Value)
    ensures
        conteudo_json(r) == ValorJson::Objeto(
            mapa_de(pares@.map_values(|p: (String, serde_json::Value)| (p.0@, conteudo_json(p.1)))),
        ),
{
    let ghost pv = pares@.map_values(|p: (String, serde_json::Value)| (p.0@, conteudo_json(p.1)));
    let mut m = mapa_vazio();
    let mut i: usize = 0;
    proof {
        assert(pv.take(0) =~= Seq::<(Seq<char>, ValorJson)>::empty());
    }
    while i < pares.len()
        invariant
            i <= pares@.len(),
            pv == pares@.map_values(|p: (String, serde_json::Value)| (p.0@, conteudo_json(p.1))),
            conteudo_mapa(m) == mapa_de(pv.take(i as int)),
        decreases pares@.len() - i,
    {
        let k = pares[i].0.clone();
        let v = pares[i].1.clone();
        inserir_no_mapa(&mut m, k, v);
        proof {
            assert(pv.take(i + 1) =~= pv.take(i as int).push(pv[i as int]));
            lema_mapa_push(pv.take(i as int), pv[i as int]);
        }
        i = i + 1;
    }
    proof {
        assert(pv.take(pares@.len() as int) =~= pv);
    }
    objeto_do_mapa(m)
}

// ------------------------------------------------------------ atalhos

/// O texto de uma chave, se ela existe e é texto.
pub fn texto_do_campo<'a>(v: &'a serde_json::Value, chave: &str) -> (r: Option<&'a str>)
    ensures
        match r {
            Some(s) => como_texto_spec(campo_spec(conteudo_json(*v), chave@)) == Some(s@),
            None => como_texto_spec(campo_spec(conteudo_json(*v), chave@)) is None,
        },
{
    match campo(v, chave) {
        Some(x) => como_str(x),
        None => None,
    }
}

/// Os textos de uma lista, pulando o que não é texto.
pub open spec fn textos_de(l: Seq<ValorJson>) -> Seq<Seq<char>>
    decreases l.len(),
{
    if l.len() == 0 {
        Seq::empty()
    } else {
        let resto = textos_de(l.drop_last());
        match l.last() {
            ValorJson::Texto(s) => resto.push(s),
            _ => resto,
        }
    }
}

/// Os textos da lista de uma chave, pulando o que não é texto; vazio quando
/// a chave falta ou não é lista.
pub fn textos_do_campo(v: &serde_json::Value, chave: &str) -> (r: Vec<String>)
    ensures
        r@.map_values(|s: String| s@) == match campo_spec(conteudo_json(*v), chave@) {
            Some(ValorJson::Lista(l)) => textos_de(l),
            _ => Seq::empty(),
        },
{
    let mut r: Vec<String> = Vec::new();
    match campo(v, chave) {
        Some(x) => match como_lista(x) {
            Some(l) => {
                let ghost lm = l@.map_values(|x: serde_json::Value| conteudo_json(x));
                let mut i: usize = 0;
                while i < l.len()
                    invariant
                        i <= l@.len(),
                        lm == l@.map_values(|x: serde_json::Value| conteudo_json(x)),
                        r@.map_values(|s: String| s@) == textos_de(lm.take(i as int)),
                    decreases l@.len() - i,
                {
                    let ghost antes = r@;
                    proof {
                        assert(lm.take(i + 1).drop_last() == lm.take(i as int));
                        assert(lm.take(i + 1).last() == conteudo_json(l@[i as int]));
                    }
                    match como_str(&l[i]) {
                        Some(s) => {
                            r.push(s.to_string());
                            proof {
                                assert(r@.map_values(|s: String| s@) == antes.map_values(
                                    |s: String| s@,
                                ).push(s@));
                            }
                        },
                        None => {},
                    }
                    i = i + 1;
                }
                proof {
                    assert(lm.take(lm.len() as int) == lm);
                }
            },
            None => {},
        },
        None => {},
    }
    r
}

/// O texto de uma chave como `String`, vazio quando não há.
pub fn texto_ou_vazio_de(v: &serde_json::Value, chave: &str) -> (r: String)
    ensures
        r@ == texto_ou_vazio(conteudo_json(*v), chave@),
{
    match texto_do_campo(v, chave) {
        Some(s) => s.to_string(),
        None => String::new(),
    }
}

/// Um objeto vazio, `{}`.
pub fn json_objeto_vazio() -> (r: serde_json::Value)
    ensures
        conteudo_json(r) == ValorJson::Objeto(Map::empty()),
{
    let pares: Vec<(String, serde_json::Value)> = Vec::new();
    let r = json_objeto(pares);
    proof {
        assert(pares@.map_values(|p: (String, serde_json::Value)| (p.0@, conteudo_json(p.1)))
            =~= Seq::empty());
    }
    r
}

/// Um objeto de uma chave só.
pub open spec fn objeto_de(k: Seq<char>, v: ValorJson) -> ValorJson {
    ValorJson::Objeto(mapa_de(Seq::empty().push((k, v))))
}

/// `{k: v}`.
pub fn objeto_com(k: &str, v: serde_json::Value) -> (r: serde_json::Value)
    ensures
        conteudo_json(r) == objeto_de(k@, conteudo_json(v)),
{
    let ghost jv = conteudo_json(v);
    let mut ps: Vec<(String, serde_json::Value)> = Vec::new();
    ps.push(par(k, v));
    proof {
        assert(ps@.map_values(|p: (String, serde_json::Value)| (p.0@, conteudo_json(p.1)))
            =~= Seq::empty().push((k@, jv)));
    }
    json_objeto(ps)
}

/// Uma lista de um valor só.
pub fn lista_de_um(v: serde_json::Value) -> (r: serde_json::Value)
    ensures
        conteudo_json(r) == ValorJson::Lista(Seq::empty().push(conteudo_json(v))),
{
    let ghost jv = conteudo_json(v);
    let mut l: Vec<serde_json::Value> = Vec::new();
    l.push(v);
    proof {
        assert(l@.map_values(|x: serde_json::Value| conteudo_json(x)) =~= Seq::empty().push(jv));
    }
    json_lista(l)
}

/// Um par chave–valor para [`json_objeto`].
pub fn par(chave: &str, valor: serde_json::Value) -> (r: (String, serde_json::Value))
    ensures
        r.0@ == chave@,
        r.1 == valor,
{
    (chave.to_string(), valor)
}

/// O número de bytes UTF-8 de um texto.
pub open spec fn bytes_utf8(s: Seq<char>) -> nat {
    encode_utf8(s).len()
}

} // verus!
