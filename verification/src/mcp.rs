//! O servidor MCP do Mutirão: a porta por onde o agente usa as ferramentas.
//!
//! Mora dentro do barramento, no caminho `/mcp`, e fala JSON-RPC 2.0 por
//! HTTP, com o mesmo token do hook de aprovação. Aqui ficam as decisões:
//! o que responder a cada pedido, e como o resultado de uma ferramenta vira
//! texto para o modelo. Resolver o token no banco e rodar a ferramenta é da
//! borda, entre [`abrir_pedido`] e [`despachar`], e depois de [`despachar`].
//!
//! - Sem `id` é notificação: 202 sem corpo. Responder a uma notificação é
//!   erro de protocolo.
//! - Token em branco, ou que não resolve, leva 403 com `{}` e nada mais.
//! - Falha de ferramenta volta como resultado com `isError`, não como erro de
//!   JSON-RPC: erro de protocolo o cliente engole, resultado com erro o
//!   modelo lê.

use crate::erro::{mensagem_de, Erro};
use crate::ferramentas::{catalogo, catalogo_ok, catalogo_spec, nomes_do_catalogo, prefixo_mcp, SERVIDOR};
use crate::papeis::lista_contem;
use crate::json::{
    campo, campo_spec, chaves_do_objeto, como_str, conteudo_json, json_bool, json_i64,
    json_lista, json_nulo, json_objeto, json_objeto_vazio, json_texto, mapa_de, objeto_com, objeto_de, par, serializar,
    texto_do_campo, texto_json, texto_ou_vazio, texto_ou_vazio_de, analisar_json, json_de_texto,
    ValorJson,
};
use crate::texto::{aparado, chars_de, comeca_com, comeca_com_chars, em_branco, iguais, string_de};
use vstd::prelude::*;

verus! {

broadcast use {vstd::string::group_string_axioms, crate::json::lema_mapa_push};

/// Versão do protocolo que respondemos quando o cliente não pede uma. Quando
/// ele pede, devolvemos a dele.
pub const VERSAO_PROTOCOLO: &'static str = "2025-06-18";

/// A versão do servidor que o `initialize` anuncia.
pub const VERSAO_DO_SERVIDOR: &'static str = "0.1.0";

/// O que o barramento devolve por HTTP.
#[derive(Debug)]
pub struct Resposta {
    pub codigo: u16,
    /// Vazio quando não há corpo: é o caso das notificações.
    pub corpo: String,
}

/// Uma resposta 200 com o valor escrito como JSON.
pub open spec fn resposta_ok(r: Resposta, corpo: ValorJson) -> bool {
    r.codigo == 200 && r.corpo@ == texto_json(corpo)
}

impl Resposta {
    pub fn ok(corpo: &serde_json::Value) -> (r: Resposta)
        ensures
            resposta_ok(r, conteudo_json(*corpo)),
    {
        Resposta { codigo: 200, corpo: serializar(corpo) }
    }

    /// Notificação: o transporte HTTP do MCP pede 202 com corpo vazio.
    pub fn aceito() -> (r: Resposta)
        ensures
            r.codigo == 202,
            r.corpo@.len() == 0,
    {
        Resposta { codigo: 202, corpo: String::new() }
    }

    /// Token que não resolve não recebe explicação.
    pub fn proibido() -> (r: Resposta)
        ensures
            r.codigo == 403,
            r.corpo@ == "{}"@,
    {
        Resposta { codigo: 403, corpo: "{}".to_string() }
    }
}

/// `{"jsonrpc": "2.0", "id": id, "result": resultado}`.
pub open spec fn resultado_spec(id: ValorJson, resultado: ValorJson) -> ValorJson {
    ValorJson::Objeto(
        mapa_de(
            Seq::empty().push(("jsonrpc"@, ValorJson::Texto("2.0"@))).push(("id"@, id)).push(
                ("result"@, resultado),
            ),
        ),
    )
}

/// `{"jsonrpc": "2.0", "id": id, "error": {"code": codigo, "message": mensagem}}`.
pub open spec fn erro_rpc_spec(id: ValorJson, codigo: int, mensagem: Seq<char>) -> ValorJson {
    ValorJson::Objeto(
        mapa_de(
            Seq::empty().push(("jsonrpc"@, ValorJson::Texto("2.0"@))).push(("id"@, id)).push(
                (
                    "error"@,
                    ValorJson::Objeto(
                        mapa_de(
                            Seq::empty().push(("code"@, ValorJson::Inteiro(codigo))).push(
                                ("message"@, ValorJson::Texto(mensagem)),
                            ),
                        ),
                    ),
                ),
            ),
        ),
    )
}

fn resultado(id: serde_json::Value, r: serde_json::Value) -> (v: serde_json::Value)
    ensures
        conteudo_json(v) == resultado_spec(conteudo_json(id), conteudo_json(r)),
{
    let ghost (ji, jr) = (conteudo_json(id), conteudo_json(r));
    let mut ps: Vec<(String, serde_json::Value)> = Vec::new();
    ps.push(par("jsonrpc", json_texto("2.0")));
    ps.push(par("id", id));
    ps.push(par("result", r));
    proof {
        assert(ps@.map_values(|p: (String, serde_json::Value)| (p.0@, conteudo_json(p.1)))
            =~= Seq::empty().push(("jsonrpc"@, ValorJson::Texto("2.0"@))).push(("id"@, ji)).push(
            ("result"@, jr),
        ));
    }
    json_objeto(ps)
}

fn erro_rpc(id: serde_json::Value, codigo: i64, mensagem: &str) -> (v: serde_json::Value)
    ensures
        conteudo_json(v) == erro_rpc_spec(conteudo_json(id), codigo as int, mensagem@),
{
    let ghost ji = conteudo_json(id);
    let mut e: Vec<(String, serde_json::Value)> = Vec::new();
    e.push(par("code", json_i64(codigo)));
    e.push(par("message", json_texto(mensagem)));
    proof {
        assert(e@.map_values(|p: (String, serde_json::Value)| (p.0@, conteudo_json(p.1)))
            =~= Seq::empty().push(("code"@, ValorJson::Inteiro(codigo as int))).push(
            ("message"@, ValorJson::Texto(mensagem@)),
        ));
    }
    let ev = json_objeto(e);
    let ghost je = conteudo_json(ev);
    let mut ps: Vec<(String, serde_json::Value)> = Vec::new();
    ps.push(par("jsonrpc", json_texto("2.0")));
    ps.push(par("id", id));
    ps.push(par("error", ev));
    proof {
        assert(ps@.map_values(|p: (String, serde_json::Value)| (p.0@, conteudo_json(p.1)))
            =~= Seq::empty().push(("jsonrpc"@, ValorJson::Texto("2.0"@))).push(("id"@, ji)).push(
            ("error"@, je),
        ));
    }
    json_objeto(ps)
}

// ------------------------------------------------------------------ pedido

/// Um pedido aberto: ou já tem resposta, ou precisa da sessão do token.
#[derive(Debug)]
pub enum Entrada {
    Pronta(Resposta),
    Pedido { id: serde_json::Value, metodo: String, params: serde_json::Value },
}

/// O valor de uma chave, ou `{}` quando ela falta.
pub open spec fn campo_ou_vazio(j: ValorJson, k: Seq<char>) -> ValorJson {
    match campo_spec(j, k) {
        Some(v) => v,
        None => ValorJson::Objeto(Map::empty()),
    }
}

fn campo_ou_vazio_de(v: &serde_json::Value, k: &str) -> (r: serde_json::Value)
    ensures
        conteudo_json(r) == campo_ou_vazio(conteudo_json(*v), k@),
{
    match campo(v, k) {
        Some(x) => x.clone(),
        None => json_objeto_vazio(),
    }
}

/// Abre uma chamada: token, corpo JSON e `id`.
///
/// Token em branco é recusado antes de ler o corpo; corpo que não é JSON
/// leva o erro -32700 com `id` nulo; sem `id` é notificação, reconhecida sem
/// resposta. O resto segue para [`despachar`] — depois que a borda resolver o
/// token numa sessão; se não resolver, a resposta é [`Resposta::proibido`].
pub fn abrir_pedido(token: &str, corpo: &str) -> (r: Entrada)
    ensures
        aparado(token@).len() == 0 ==> (r matches Entrada::Pronta(resp) && resp.codigo == 403
            && resp.corpo@ == "{}"@),
        aparado(token@).len() != 0 ==> match json_de_texto(corpo@) {
            None => r matches Entrada::Pronta(resp) && resposta_ok(
                resp,
                erro_rpc_spec(ValorJson::Nulo, -32700, "corpo não é json"@),
            ),
            Some(j) => match campo_spec(j, "id"@) {
                None => r matches Entrada::Pronta(resp) && resp.codigo == 202 && resp.corpo@.len()
                    == 0,
                Some(i) => r matches Entrada::Pedido { id, metodo, params } && conteudo_json(id)
                    == i && metodo@ == texto_ou_vazio(j, "method"@) && conteudo_json(params)
                    == campo_ou_vazio(j, "params"@),
            },
        },
{
    if em_branco(token) {
        return Entrada::Pronta(Resposta::proibido());
    }
    let pedido = match analisar_json(corpo) {
        Some(p) => p,
        None => return Entrada::Pronta(Resposta::ok(&erro_rpc(json_nulo(), -32700, "corpo não é json"))),
    };
    let id = match campo(&pedido, "id") {
        Some(i) => i.clone(),
        None => return Entrada::Pronta(Resposta::aceito()),
    };
    Entrada::Pedido {
        id,
        metodo: texto_ou_vazio_de(&pedido, "method"),
        params: campo_ou_vazio_de(&pedido, "params"),
    }
}

// ---------------------------------------------------------------- despacho

/// O que fazer com um pedido cuja sessão resolveu.
#[derive(Debug)]
pub enum Passo {
    Pronta(Resposta),
    /// Rodar a ferramenta e responder com [`resposta_da_ferramenta`].
    Executar { id: serde_json::Value, nome: String, args: serde_json::Value },
}

/// O nome como o servidor o conhece: sem o prefixo `mcp__mutirao__`, que só
/// existe do lado do cliente.
pub open spec fn sem_prefixo_spec(nome: Seq<char>) -> Seq<char> {
    if comeca_com(nome, prefixo_mcp()) {
        nome.skip(prefixo_mcp().len() as int)
    } else {
        nome
    }
}

/// O resultado do `initialize`.
pub open spec fn apresentacao_spec(versao: Seq<char>) -> ValorJson {
    ValorJson::Objeto(
        mapa_de(
            Seq::empty().push(("protocolVersion"@, ValorJson::Texto(versao))).push(
                (
                    "capabilities"@,
                    ValorJson::Objeto(
                        mapa_de(
                            Seq::empty().push(
                                (
                                    "tools"@,
                                    ValorJson::Objeto(
                                        mapa_de(
                                            Seq::empty().push(
                                                ("listChanged"@, ValorJson::Booleano(false)),
                                            ),
                                        ),
                                    ),
                                ),
                            ),
                        ),
                    ),
                ),
            ).push(
                (
                    "serverInfo"@,
                    ValorJson::Objeto(
                        mapa_de(
                            Seq::empty().push(("name"@, ValorJson::Texto("mutirao"@))).push(
                                ("version"@, ValorJson::Texto(VERSAO_DO_SERVIDOR@)),
                            ),
                        ),
                    ),
                ),
            ),
        ),
    )
}

/// A versão que o cliente pediu, ou a nossa.
pub open spec fn versao_pedida(params: ValorJson) -> Seq<char> {
    match campo_spec(params, "protocolVersion"@) {
        Some(ValorJson::Texto(v)) => v,
        _ => VERSAO_PROTOCOLO@,
    }
}

fn apresentacao(versao: &str) -> (r: serde_json::Value)
    ensures
        conteudo_json(r) == apresentacao_spec(versao@),
{
    let ferramentas = objeto_com("tools", objeto_com("listChanged", json_bool(false)));
    let ghost jf = conteudo_json(ferramentas);
    let mut info: Vec<(String, serde_json::Value)> = Vec::new();
    info.push(par("name", json_texto(SERVIDOR)));
    info.push(par("version", json_texto(VERSAO_DO_SERVIDOR)));
    proof {
        assert(info@.map_values(|p: (String, serde_json::Value)| (p.0@, conteudo_json(p.1)))
            =~= Seq::empty().push(("name"@, ValorJson::Texto("mutirao"@))).push(
            ("version"@, ValorJson::Texto(VERSAO_DO_SERVIDOR@)),
        ));
    }
    let info = json_objeto(info);
    let ghost ji = conteudo_json(info);
    let mut ps: Vec<(String, serde_json::Value)> = Vec::new();
    ps.push(par("protocolVersion", json_texto(versao)));
    ps.push(par("capabilities", ferramentas));
    ps.push(par("serverInfo", info));
    proof {
        assert(ps@.map_values(|p: (String, serde_json::Value)| (p.0@, conteudo_json(p.1)))
            =~= Seq::empty().push(("protocolVersion"@, ValorJson::Texto(versao@))).push(
            ("capabilities"@, jf),
        ).push(("serverInfo"@, ji)));
    }
    json_objeto(ps)
}

/// Tira o prefixo `mcp__mutirao__`, quando ele está lá.
pub fn sem_prefixo(nome: &str) -> (r: String)
    ensures
        r@ == sem_prefixo_spec(nome@),
{
    let v = chars_de(nome);
    let p = chars_de("mcp__mutirao__");
    proof {
        reveal_strlit("mcp__mutirao__");
        reveal_strlit("mcp__");
        reveal_strlit("mutirao");
        reveal_strlit("__");
        assert(prefixo_mcp() == "mcp__mutirao__"@);
    }
    if comeca_com_chars(&v, &p) {
        let mut r: Vec<char> = Vec::new();
        let mut i: usize = p.len();
        while i < v.len()
            invariant
                p@.len() <= i <= v@.len(),
                r@ == v@.subrange(p@.len() as int, i as int),
            decreases v@.len() - i,
        {
            r.push(v[i]);
            proof {
                assert(v@.subrange(p@.len() as int, i + 1) == v@.subrange(
                    p@.len() as int,
                    i as int,
                ).push(v@[i as int]));
            }
            i = i + 1;
        }
        proof {
            assert(v@.skip(p@.len() as int) == v@.subrange(p@.len() as int, v@.len() as int));
        }
        string_de(&r)
    } else {
        nome.to_string()
    }
}

/// As entradas do catálogo que o papel alcança, na ordem do catálogo.
pub open spec fn visiveis(c: Seq<ValorJson>, permitidas: Seq<Seq<char>>, n: int) -> Seq<ValorJson>
    decreases n,
{
    if n <= 0 {
        Seq::empty()
    } else if permitidas.contains(catalogo_spec()[n - 1]) {
        visiveis(c, permitidas, n - 1).push(c[n - 1])
    } else {
        visiveis(c, permitidas, n - 1)
    }
}

/// A recusa de uma ferramenta que o papel não alcança.
pub open spec fn fora_do_papel(nome: Seq<char>) -> Seq<char> {
    "o seu papel não alcança a ferramenta "@ + nome
}

/// O passo que um método pede, para o id `i`, os parâmetros `p` e as
/// ferramentas `ps` que o papel alcança.
pub open spec fn despacho_ok(r: Passo, i: ValorJson, metodo: Seq<char>, p: ValorJson, ps: Seq<Seq<char>>) -> bool {
    let nome = sem_prefixo_spec(texto_ou_vazio(p, "name"@));
    if metodo == "initialize"@ || metodo == "server/discover"@ {
        r matches Passo::Pronta(resp) && resposta_ok(
            resp,
            resultado_spec(i, apresentacao_spec(versao_pedida(p))),
        )
    } else if metodo == "ping"@ {
        r matches Passo::Pronta(resp) && resposta_ok(
            resp,
            resultado_spec(i, ValorJson::Objeto(Map::empty())),
        )
    } else if metodo == "tools/list"@ {
        r matches Passo::Pronta(resp) && exists|c: Seq<ValorJson>|
            catalogo_ok(c) && resposta_ok(
                resp,
                resultado_spec(i, objeto_de("tools"@, ValorJson::Lista(visiveis(c, ps, 12)))),
            )
    } else if metodo == "tools/call"@ {
        if ps.contains(nome) {
            r matches Passo::Executar { id: x, nome: n, args } && conteudo_json(x) == i && n@
                == nome && conteudo_json(args) == campo_ou_vazio(p, "arguments"@)
        } else {
            r matches Passo::Pronta(resp) && resposta_ok(
                resp,
                resultado_spec(i, resultado_da_ferramenta_spec(fora_do_papel(nome), true)),
            )
        }
    } else {
        r matches Passo::Pronta(resp) && resposta_ok(
            resp,
            erro_rpc_spec(i, -32601, "método desconhecido: "@ + metodo),
        )
    }
}

/// O que responder a um pedido cuja sessão resolveu.
///
/// `initialize` (e a sondagem `server/discover`) devolve a versão pedida;
/// `ping` devolve `{}`; `tools/list` devolve as entradas do catálogo que o
/// papel alcança (`permitidas`); `tools/call` manda rodar a ferramenta, com o
/// nome sem prefixo e os argumentos (`{}` quando faltam), se o papel a
/// alcança, e responde com erro de ferramenta se não alcança: esconder da
/// lista não basta, chamar direto também é recusado. Método desconhecido leva
/// -32601.
pub fn despachar(
    id: serde_json::Value,
    metodo: &str,
    params: &serde_json::Value,
    permitidas: &Vec<String>,
) -> (r: Passo)
    ensures
        despacho_ok(
            r,
            conteudo_json(id),
            metodo@,
            conteudo_json(*params),
            permitidas@.map_values(|s: String| s@),
        ),
{
    if iguais(metodo, "initialize") || iguais(metodo, "server/discover") {
        let versao = match texto_do_campo(params, "protocolVersion") {
            Some(v) => v,
            None => VERSAO_PROTOCOLO,
        };
        return Passo::Pronta(Resposta::ok(&resultado(id, apresentacao(versao))));
    }
    if iguais(metodo, "ping") {
        return Passo::Pronta(Resposta::ok(&resultado(id, json_objeto_vazio())));
    }
    if iguais(metodo, "tools/list") {
        let c = catalogo();
        let nomes = nomes_do_catalogo();
        let ghost cj = c@.map_values(|x: serde_json::Value| conteudo_json(x));
        let ghost ps = permitidas@.map_values(|s: String| s@);
        let mut lista: Vec<serde_json::Value> = Vec::new();
        let mut k: usize = 0;
        assert(nomes@.map_values(|s: &str| s@).len() == 12);
        while k < 12
            invariant
                k <= 12,
                c@.len() == 12,
                nomes@.len() == 12,
                nomes@.map_values(|s: &str| s@) == catalogo_spec(),
                cj == c@.map_values(|x: serde_json::Value| conteudo_json(x)),
                ps == permitidas@.map_values(|s: String| s@),
                lista@.map_values(|x: serde_json::Value| conteudo_json(x)) == visiveis(cj, ps, k as int),
            decreases 12 - k,
        {
            proof {
                assert(nomes@.map_values(|s: &str| s@)[k as int] == nomes@[k as int]@);
            }
            if lista_contem(permitidas, nomes[k]) {
                let ghost antes = lista@;
                lista.push(c[k].clone());
                proof {
                    assert(lista@.map_values(|x: serde_json::Value| conteudo_json(x)) == antes.map_values(
                        |x: serde_json::Value| conteudo_json(x),
                    ).push(cj[k as int]));
                }
            }
            k = k + 1;
        }
        let corpo = resultado(id, objeto_com("tools", json_lista(lista)));
        return Passo::Pronta(Resposta::ok(&corpo));
    }
    if iguais(metodo, "tools/call") {
        let nome = sem_prefixo(texto_ou_vazio_de(params, "name").as_str());
        if lista_contem(permitidas, nome.as_str()) {
            return Passo::Executar { id, nome, args: campo_ou_vazio_de(params, "arguments") };
        }
        let mut v: Vec<char> = chars_de("o seu papel não alcança a ferramenta ");
        let n = chars_de(nome.as_str());
        crate::texto::anexar_chars(&mut v, &n);
        let erro = crate::erro::invalido_de(&v);
        return Passo::Pronta(resposta_da_ferramenta(id, Err(erro)));
    }
    let mut v: Vec<char> = chars_de("método desconhecido: ");
    let m = chars_de(metodo);
    let mut i: usize = 0;
    while i < m.len()
        invariant
            i <= m@.len(),
            v@ == "método desconhecido: "@ + m@.take(i as int),
        decreases m@.len() - i,
    {
        v.push(m[i]);
        proof {
            assert(m@.take(i + 1) == m@.take(i as int).push(m@[i as int]));
        }
        i = i + 1;
    }
    proof {
        assert(m@.take(m@.len() as int) == m@);
    }
    let msg = string_de(&v);
    Passo::Pronta(Resposta::ok(&erro_rpc(id, -32601, msg.as_str())))
}

// -------------------------------------------------------------- resultado

/// O resultado de uma ferramenta como texto para o modelo: objeto que só tem
/// um `conteudo` de texto vira o texto cru (o documento é o payload); todo o
/// resto vai como JSON compacto.
pub open spec fn texto_para_o_modelo(v: ValorJson) -> Seq<char> {
    match v {
        ValorJson::Objeto(m) => match campo_spec(v, "conteudo"@) {
            Some(ValorJson::Texto(t)) => if m.dom().len() == 1 {
                t
            } else {
                texto_json(v)
            },
            _ => texto_json(v),
        },
        _ => texto_json(v),
    }
}

/// A resposta de um `tools/call`: `content` com um bloco de texto e
/// `isError` dizendo se a ferramenta falhou.
pub open spec fn resultado_da_ferramenta_spec(texto: Seq<char>, falhou: bool) -> ValorJson {
    ValorJson::Objeto(
        mapa_de(
            Seq::empty().push(
                (
                    "content"@,
                    ValorJson::Lista(
                        Seq::empty().push(
                            ValorJson::Objeto(
                                mapa_de(
                                    Seq::empty().push(("type"@, ValorJson::Texto("text"@))).push(
                                        ("text"@, ValorJson::Texto(texto)),
                                    ),
                                ),
                            ),
                        ),
                    ),
                ),
            ).push(("isError"@, ValorJson::Booleano(falhou))),
        ),
    )
}

/// O resultado de uma ferramenta como texto para o modelo.
pub fn como_texto(v: &serde_json::Value) -> (r: String)
    ensures
        r@ == texto_para_o_modelo(conteudo_json(*v)),
{
    match chaves_do_objeto(v) {
        Some(n) => {
            if n == 1 {
                match texto_do_campo(v, "conteudo") {
                    Some(t) => return t.to_string(),
                    None => {},
                }
            }
        },
        None => {},
    }
    serializar(v)
}

/// A resposta HTTP a um `tools/call`, dado o que a ferramenta devolveu.
pub fn resposta_da_ferramenta(id: serde_json::Value, r: Result<serde_json::Value, Erro>) -> (resp:
    Resposta)
    ensures
        resposta_ok(
            resp,
            resultado_spec(
                conteudo_json(id),
                match r {
                    Ok(v) => resultado_da_ferramenta_spec(
                        texto_para_o_modelo(conteudo_json(v)),
                        false,
                    ),
                    Err(e) => resultado_da_ferramenta_spec(mensagem_de(e), true),
                },
            ),
        ),
{
    let (texto, falhou) = match &r {
        Ok(v) => (como_texto(v), false),
        Err(e) => (e.mensagem(), true),
    };
    let mut bloco: Vec<(String, serde_json::Value)> = Vec::new();
    bloco.push(par("type", json_texto("text")));
    bloco.push(par("text", json_texto(texto.as_str())));
    proof {
        assert(bloco@.map_values(|p: (String, serde_json::Value)| (p.0@, conteudo_json(p.1)))
            =~= Seq::empty().push(("type"@, ValorJson::Texto("text"@))).push(
            ("text"@, ValorJson::Texto(texto@)),
        ));
    }
    let bloco = json_objeto(bloco);
    let ghost jb = conteudo_json(bloco);
    let mut lista: Vec<serde_json::Value> = Vec::new();
    lista.push(bloco);
    proof {
        assert(lista@.map_values(|x: serde_json::Value| conteudo_json(x)) =~= Seq::empty().push(jb));
    }
    let lista = json_lista(lista);
    let ghost jl = conteudo_json(lista);
    let mut ps: Vec<(String, serde_json::Value)> = Vec::new();
    ps.push(par("content", lista));
    ps.push(par("isError", json_bool(falhou)));
    proof {
        assert(ps@.map_values(|p: (String, serde_json::Value)| (p.0@, conteudo_json(p.1)))
            =~= Seq::empty().push(("content"@, jl)).push(("isError"@, ValorJson::Booleano(falhou))));
    }
    Resposta::ok(&resultado(id, json_objeto(ps)))
}

/// Um pedido JSON-RPC da porta até o passo seguinte. `permitidas` é o que a
/// borda achou para o token: as ferramentas que o papel da sessão alcança, ou
/// `None` quando o token não é de sessão nenhuma.
///
/// Token em branco leva 403 antes de qualquer leitura; corpo que não é JSON,
/// -32700; notificação (sem `id`), 202 sem corpo. Um token que não resolve
/// leva 403 com `{}` antes de se olhar o método: nem a lista de ferramentas
/// sai para quem não se identificou. O resto é [`despachar`].
pub fn atender(token: &str, corpo: &str, permitidas: Option<Vec<String>>) -> (r: Passo)
    ensures
        aparado(token@).len() == 0 ==> (r matches Passo::Pronta(resp) && resp.codigo == 403
            && resp.corpo@ == "{}"@),
        aparado(token@).len() != 0 ==> match json_de_texto(corpo@) {
            None => r matches Passo::Pronta(resp) && resposta_ok(
                resp,
                erro_rpc_spec(ValorJson::Nulo, -32700, "corpo não é json"@),
            ),
            Some(j) => match campo_spec(j, "id"@) {
                None => r matches Passo::Pronta(resp) && resp.codigo == 202 && resp.corpo@.len()
                    == 0,
                Some(i) => match permitidas {
                    None => r matches Passo::Pronta(resp) && resp.codigo == 403 && resp.corpo@
                        == "{}"@,
                    Some(ps) => despacho_ok(
                        r,
                        i,
                        texto_ou_vazio(j, "method"@),
                        campo_ou_vazio(j, "params"@),
                        ps@.map_values(|s: String| s@),
                    ),
                },
            },
        },
{
    match abrir_pedido(token, corpo) {
        Entrada::Pronta(resposta) => Passo::Pronta(resposta),
        Entrada::Pedido { id, metodo, params } => match permitidas {
            None => Passo::Pronta(Resposta::proibido()),
            Some(lista) => despachar(id, metodo.as_str(), &params, &lista),
        },
    }
}

} // verus!
