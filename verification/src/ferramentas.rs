//! As ferramentas do barramento: os nomes, o nome completo que o modelo vê,
//! e as regras que não dependem de disco nem de banco.
//!
//! O que um agente enxerga daqui é decidido pelos cabos, e só por eles: um
//! nome que não resolve entre os vizinhos dá "esse nó não existe", esteja o
//! nó desligado ou inexistente.

use crate::erro::{invalido_de, Erro};
use crate::json::{
    campo, campo_spec, como_str, como_texto_spec, como_u64, conteudo_json, json_bool, json_lista,
    bytes_utf8, json_objeto, json_texto, lema_chave_no_mapa, mapa_de, par, texto_do_campo, texto_ou_vazio,
    texto_ou_vazio_de, textos_de, textos_do_campo, u64_de, ValorJson,
};
use crate::arquivos::ItemArquivo;
use crate::modelo::{TipoCabo, TipoNo, PRAZO_MENSAGEM_PADRAO_MS, PRAZO_MENSAGEM_TETO_MS};
use crate::texto::iguais;
use crate::texto::{
    anexar, anexar_chars, aparado, aparar, chars_de, em_branco, em_minusculas, juntar, juntar_chars,
    minusculas, string_de,
};
use vstd::prelude::*;

verus! {

broadcast use {vstd::string::group_string_axioms, crate::json::lema_mapa_push};

/// O nome do servidor MCP. Vira prefixo do nome que o modelo vê.
pub const SERVIDOR: &'static str = "mutirao";

/// As que gravam no disco. Passam pelo card com o nome completo.
pub const FERRAMENTAS_QUE_GRAVAM: [&'static str; 2] = ["escrever_nota", "escrever_arquivo"];

/// As de montar time. Não passam pela escada de autonomia: quem as tem é
/// quem as listou no papel.
pub const FERRAMENTAS_DE_TIME: [&'static str; 2] = ["recrutar", "dispensar"];

/// Todas as ferramentas do barramento, na ordem do `tools/list`.
pub const NOMES_DO_CATALOGO: [&'static str; 12] = [
    "enviar_para",
    "avisar",
    "listar_nos",
    "ler_nota",
    "escrever_nota",
    "listar_arquivos",
    "ler_arquivo",
    "escrever_arquivo",
    "perguntar_humano",
    "concluir",
    "recrutar",
    "dispensar",
];

/// A ferramenta grava no disco.
pub open spec fn grava(n: Seq<char>) -> bool {
    n == "escrever_nota"@ || n == "escrever_arquivo"@
}

/// A ferramenta grava no disco?
pub fn grava_no_disco(nome: &str) -> (r: bool)
    ensures
        r == grava(nome@),
{
    iguais(nome, FERRAMENTAS_QUE_GRAVAM[0]) || iguais(nome, FERRAMENTAS_QUE_GRAVAM[1])
}

/// A ferramenta monta ou desmonta time.
pub open spec fn e_de_time(n: Seq<char>) -> bool {
    n == "recrutar"@ || n == "dispensar"@
}

/// Os nomes do catálogo, na ordem.
pub open spec fn catalogo_spec() -> Seq<Seq<char>> {
    seq![
        "enviar_para"@,
        "avisar"@,
        "listar_nos"@,
        "ler_nota"@,
        "escrever_nota"@,
        "listar_arquivos"@,
        "ler_arquivo"@,
        "escrever_arquivo"@,
        "perguntar_humano"@,
        "concluir"@,
        "recrutar"@,
        "dispensar"@,
    ]
}

/// O prefixo que o cliente MCP põe nas nossas ferramentas.
pub open spec fn prefixo_mcp() -> Seq<char> {
    "mcp__mutirao__"@
}

/// `mcp__mutirao__<ferramenta>`.
pub open spec fn nome_completo_spec(f: Seq<char>) -> Seq<char> {
    prefixo_mcp() + f
}

/// O nome que o modelo vê: `mcp__mutirao__<ferramenta>`.
pub fn nome_completo(ferramenta: &str) -> (r: String)
    ensures
        r@ == nome_completo_spec(ferramenta@),
{
    let mut v: Vec<char> = Vec::new();
    anexar(&mut v, "mcp__");
    anexar(&mut v, SERVIDOR);
    anexar(&mut v, "__");
    anexar(&mut v, ferramenta);
    proof {
        reveal_strlit("mcp__");
        reveal_strlit("mutirao");
        reveal_strlit("__");
        reveal_strlit("mcp__mutirao__");
        assert("mcp__"@ + "mutirao"@ + "__"@ == "mcp__mutirao__"@);
    }
    string_de(&v)
}

/// Os nomes do catálogo, como texto, na ordem.
pub fn nomes_do_catalogo() -> (r: Vec<&'static str>)
    ensures
        r@.map_values(|s: &str| s@) == catalogo_spec(),
{
    let mut r: Vec<&'static str> = Vec::new();
    let mut i: usize = 0;
    while i < 12
        invariant
            i <= 12,
            r@.map_values(|s: &str| s@) == catalogo_spec().take(i as int),
        decreases 12 - i,
    {
        let ghost antes = r@;
        r.push(NOMES_DO_CATALOGO[i]);
        proof {
            assert(r@.map_values(|s: &str| s@) == antes.map_values(|s: &str| s@).push(
                NOMES_DO_CATALOGO[i as int]@,
            ));
            assert(catalogo_spec().take(i + 1) == catalogo_spec().take(i as int).push(
                catalogo_spec()[i as int],
            ));
        }
        i = i + 1;
    }
    proof {
        assert(catalogo_spec().take(12) == catalogo_spec());
    }
    r
}

/// Quanto esperar por uma resposta: o que foi pedido, se positivo, senão o
/// padrão — e nunca mais que o teto.
pub open spec fn prazo_spec(pedido: Option<u64>) -> u64 {
    let p = match pedido {
        Some(p) if p > 0 => p,
        _ => PRAZO_MENSAGEM_PADRAO_MS,
    };
    if p < PRAZO_MENSAGEM_TETO_MS {
        p
    } else {
        PRAZO_MENSAGEM_TETO_MS
    }
}

/// O prazo com o teto aplicado, a partir do `prazo_ms` pedido (quando ele é
/// um número natural).
pub fn prazo_do_pedido(pedido: Option<u64>) -> (r: u64)
    ensures
        r == prazo_spec(pedido),
        0 < r <= PRAZO_MENSAGEM_TETO_MS,
{
    let p = match pedido {
        Some(p) if p > 0 => p,
        _ => PRAZO_MENSAGEM_PADRAO_MS,
    };
    if p < PRAZO_MENSAGEM_TETO_MS {
        p
    } else {
        PRAZO_MENSAGEM_TETO_MS
    }
}

// ------------------------------------------------------------ vizinhos

/// O nome procurado e o de um vizinho casam: iguais depois de aparar e
/// passar para minúsculas.
pub open spec fn mesmo_nome(a: Seq<char>, b: Seq<char>) -> bool {
    minusculas(aparado(a)) == minusculas(aparado(b))
}

/// Quantos vizinhos casam com o nome, entre os primeiros `n`.
pub open spec fn casamentos(vizinhos: Seq<(Seq<char>, Seq<char>)>, nome: Seq<char>, n: int) -> Seq<
    Seq<char>,
>
    decreases n,
{
    if n <= 0 {
        seq![]
    } else {
        let anteriores = casamentos(vizinhos, nome, n - 1);
        if mesmo_nome(vizinhos[n - 1].1, nome) {
            anteriores.push(vizinhos[n - 1].0)
        } else {
            anteriores
        }
    }
}

/// A resposta de procurar um vizinho pelo nome.
pub open spec fn escolha_spec(vizinhos: Seq<(Seq<char>, Seq<char>)>, nome: Seq<char>) -> Option<
    Seq<char>,
> {
    let achados = casamentos(vizinhos, nome, vizinhos.len() as int);
    if achados.len() == 1 {
        Some(achados[0])
    } else {
        None
    }
}

/// A recusa quando mais de um vizinho atende pelo nome.
pub open spec fn frase_ambigua(nome: Seq<char>) -> Seq<char> {
    "há mais de um nó chamado \""@ + nome + "\" ligado a você; renomeie um deles"@
}

/// Resolve o nome de um vizinho entre os que os cabos deixam ver.
///
/// `vizinhos` é a lista `(id, nome)` dos nós ligados. Um casamento só devolve
/// o id; nenhum dá `nao_encontrado` com a mesma frase para nó desligado ou
/// inexistente; mais de um é erro explícito, nunca um chute.
pub fn escolher_vizinho(vizinhos: &Vec<(String, String)>, nome: &str) -> (r: Result<String, Erro>)
    ensures
        ({
            let vs = vizinhos@.map_values(|p: (String, String)| (p.0@, p.1@));
            let achados = casamentos(vs, nome@, vs.len() as int);
            &&& achados.len() == 1 ==> (r matches Ok(id) && id@ == achados[0])
            &&& achados.len() == 0 ==> (r matches Err(Erro::NaoEncontrado { tipo, id })
                && tipo@ == "nó"@ && id@ == nome@)
            &&& achados.len() > 1 ==> (r matches Err(Erro::Invalido(m)) && m@ == frase_ambigua(nome@))
        }),
{
    let ghost vs = vizinhos@.map_values(|p: (String, String)| (p.0@, p.1@));
    let procurado = em_minusculas(aparar(nome).as_str());
    let mut achados: Vec<String> = Vec::new();
    let mut i: usize = 0;
    while i < vizinhos.len()
        invariant
            i <= vizinhos@.len(),
            vs == vizinhos@.map_values(|p: (String, String)| (p.0@, p.1@)),
            procurado@ == minusculas(aparado(nome@)),
            achados@.map_values(|s: String| s@) == casamentos(vs, nome@, i as int),
        decreases vizinhos@.len() - i,
    {
        let candidato = em_minusculas(aparar(vizinhos[i].1.as_str()).as_str());
        let ghost antes = achados@;
        if candidato == procurado {
            achados.push(vizinhos[i].0.clone());
            proof {
                assert(achados@.map_values(|s: String| s@) == antes.map_values(|s: String| s@).push(
                    vizinhos@[i as int].0@,
                ));
            }
        }
        proof {
            assert(vs[i as int] == (vizinhos@[i as int].0@, vizinhos@[i as int].1@));
        }
        i = i + 1;
    }
    proof {
        assert(achados@.len() == casamentos(vs, nome@, vs.len() as int).len());
    }
    if achados.len() == 1 {
        proof {
            assert(achados@.map_values(|s: String| s@)[0] == achados@[0]@);
        }
        Ok(achados[0].clone())
    } else if achados.len() == 0 {
        Err(Erro::nao_encontrado("nó", nome))
    } else {
        let mut v: Vec<char> = Vec::new();
        anexar(&mut v, "há mais de um nó chamado \"");
        anexar(&mut v, nome);
        anexar(&mut v, "\" ligado a você; renomeie um deles");
        Err(invalido_de(&v))
    }
}

// ------------------------------------------------------------ catálogo

/// Os campos que cada ferramenta exige, na ordem em que são conferidos.
pub open spec fn obrigatorios_spec(n: Seq<char>) -> Seq<Seq<char>> {
    if n == "enviar_para"@ || n == "avisar"@ {
        Seq::empty().push("no"@).push("mensagem"@)
    } else if n == "ler_nota"@ {
        Seq::empty().push("nota"@)
    } else if n == "escrever_nota"@ {
        Seq::empty().push("nota"@).push("conteudo"@)
    } else if n == "ler_arquivo"@ {
        Seq::empty().push("caminho"@)
    } else if n == "escrever_arquivo"@ {
        Seq::empty().push("caminho"@).push("conteudo"@)
    } else if n == "perguntar_humano"@ {
        Seq::empty().push("pergunta"@)
    } else if n == "concluir"@ {
        Seq::empty().push("resumo"@)
    } else if n == "recrutar"@ {
        Seq::empty().push("papel"@).push("nome"@)
    } else if n == "dispensar"@ {
        Seq::empty().push("no"@)
    } else {
        Seq::empty()
    }
}

/// O que a descrição de cada ferramenta diz ao modelo: é a única instrução
/// que ele recebe sobre como a ponte funciona.
pub open spec fn descricao_spec(n: Seq<char>) -> Seq<char> {
    if n == "enviar_para"@ {
        "Pergunta a outro nó do canvas e ESPERA a resposta dele. Use quando precisar do trabalho do outro para continuar o seu."@
    } else if n == "avisar"@ {
        "Entrega um recado a outro nó e segue em frente, sem esperar resposta."@
    } else if n == "listar_nos"@ {
        "Lista os nós com quem você pode falar e as notas que pode ler ou escrever. Se um nó não está aqui, ele não existe para você."@
    } else if n == "ler_nota"@ {
        "Lê uma nota compartilhada do canvas."@
    } else if n == "escrever_nota"@ {
        "Escreve numa nota compartilhada. O usuário precisa aprovar antes."@
    } else if n == "listar_arquivos"@ {
        "Lista a pasta do workspace."@
    } else if n == "ler_arquivo"@ {
        "Lê um arquivo de texto da pasta do workspace."@
    } else if n == "escrever_arquivo"@ {
        "Grava um arquivo de texto na pasta do workspace. O usuário precisa aprovar antes."@
    } else if n == "perguntar_humano"@ {
        "Pergunta ao usuário e espera. Use quando faltar uma decisão que não é sua — não invente a resposta."@
    } else if n == "concluir"@ {
        "Marca sua tarefa como entregue, com um resumo do que foi feito."@
    } else if n == "recrutar"@ {
        "Põe no canvas um agente novo, com um papel da biblioteca, já ligado a você. Recrute o mínimo que resolve."@
    } else if n == "dispensar"@ {
        "Encerra a sessão de um agente que você recrutou. O nó e a conversa ficam no canvas."@
    } else {
        Seq::empty()
    }
}

/// Uma lista de textos como valores JSON.
pub open spec fn textos_json_spec(s: Seq<Seq<char>>) -> Seq<ValorJson> {
    s.map_values(|t: Seq<char>| ValorJson::Texto(t))
}

/// O esquema de entrada de uma ferramenta: um objeto fechado, que declara
/// cada campo obrigatório e lista os obrigatórios em `required`.
pub open spec fn esquema_ok(s: ValorJson, obrigatorios: Seq<Seq<char>>) -> bool {
    &&& s matches ValorJson::Objeto(m) && m.dom() == {
        let base = Set::<Seq<char>>::empty().insert("type"@).insert("properties"@).insert(
            "additionalProperties"@,
        );
        if obrigatorios.len() == 0 {
            base
        } else {
            base.insert("required"@)
        }
    }
    &&& campo_spec(s, "type"@) == Some(ValorJson::Texto("object"@))
    &&& campo_spec(s, "additionalProperties"@) == Some(ValorJson::Booleano(false))
    &&& campo_spec(s, "required"@) == if obrigatorios.len() == 0 {
        None
    } else {
        Some(ValorJson::Lista(textos_json_spec(obrigatorios)))
    }
    &&& campo_spec(s, "properties"@) matches Some(ValorJson::Objeto(p))
    &&& forall|k: int| 0 <= k < obrigatorios.len() ==> p.contains_key(#[trigger] obrigatorios[k])
}

/// Um texto opcional, visto como sequência.
pub open spec fn texto_opcional(o: Option<&str>) -> Option<Seq<char>> {
    match o {
        Some(d) => Some(d@),
        None => None,
    }
}

/// `{"type": tipo}`, com `"description"` quando há.
pub open spec fn campo_do_tipo_spec(tipo: Seq<char>, descricao: Option<Seq<char>>) -> ValorJson {
    let base = Map::<Seq<char>, ValorJson>::empty().insert("type"@, ValorJson::Texto(tipo));
    ValorJson::Objeto(
        match descricao {
            Some(d) => base.insert("description"@, ValorJson::Texto(d)),
            None => base,
        },
    )
}

/// `{"type": "array", "items": {"type": "string"}}`, com `"description"`
/// quando há.
pub open spec fn lista_de_textos_spec(descricao: Option<Seq<char>>) -> ValorJson {
    let base = Map::<Seq<char>, ValorJson>::empty().insert("type"@, ValorJson::Texto("array"@)).insert(
        "items"@,
        campo_do_tipo_spec("string"@, None),
    );
    ValorJson::Objeto(
        match descricao {
            Some(d) => base.insert("description"@, ValorJson::Texto(d)),
            None => base,
        },
    )
}

/// `{"type": "string", "enum": ["substituir", "acrescentar"]}`.
pub open spec fn modo_de_escrita_spec() -> ValorJson {
    ValorJson::Objeto(
        Map::<Seq<char>, ValorJson>::empty().insert("type"@, ValorJson::Texto("string"@)).insert(
            "enum"@,
            ValorJson::Lista(seq![ValorJson::Texto("substituir"@), ValorJson::Texto("acrescentar"@)]),
        ),
    )
}

/// Um texto simples, sem descrição.
pub open spec fn texto_simples() -> ValorJson {
    campo_do_tipo_spec("string"@, None)
}

/// As propriedades do esquema de entrada de cada ferramenta: o nome de cada
/// argumento, o seu tipo e, onde há, a descrição que o modelo lê.
pub open spec fn propriedades_spec(n: Seq<char>) -> Map<Seq<char>, ValorJson> {
    let vazio = Map::<Seq<char>, ValorJson>::empty();
    if n == "enviar_para"@ {
        vazio.insert(
            "no"@,
            campo_do_tipo_spec("string"@, Some("nome do nó vizinho, como aparece no canvas"@)),
        ).insert("mensagem"@, campo_do_tipo_spec("string"@, Some("o que você precisa dele"@))).insert(
            "refs"@,
            lista_de_textos_spec(Some("notas ou arquivos citados, para ele saber onde olhar"@)),
        ).insert(
            "prazo_ms"@,
            campo_do_tipo_spec("integer"@, Some("quanto esperar; padrão 600000"@)),
        )
    } else if n == "avisar"@ {
        vazio.insert("no"@, campo_do_tipo_spec("string"@, Some("nome do nó vizinho"@))).insert(
            "mensagem"@,
            texto_simples(),
        )
    } else if n == "ler_nota"@ {
        vazio.insert("nota"@, campo_do_tipo_spec("string"@, Some("nome do nó de nota"@)))
    } else if n == "escrever_nota"@ {
        vazio.insert("nota"@, texto_simples()).insert("conteudo"@, texto_simples()).insert(
            "modo"@,
            modo_de_escrita_spec(),
        )
    } else if n == "listar_arquivos"@ {
        vazio.insert("caminho"@, campo_do_tipo_spec("string"@, Some("subpasta; vazio é a raiz"@)))
    } else if n == "ler_arquivo"@ {
        vazio.insert("caminho"@, texto_simples())
    } else if n == "escrever_arquivo"@ {
        vazio.insert("caminho"@, texto_simples()).insert("conteudo"@, texto_simples())
    } else if n == "perguntar_humano"@ {
        vazio.insert("pergunta"@, texto_simples()).insert("opcoes"@, lista_de_textos_spec(None))
    } else if n == "concluir"@ {
        vazio.insert("resumo"@, texto_simples())
    } else if n == "recrutar"@ {
        vazio.insert("papel"@, campo_do_tipo_spec("string"@, Some("nome do papel na biblioteca"@))).insert(
            "nome"@,
            campo_do_tipo_spec("string"@, Some("como o nó vai aparecer no canvas"@)),
        )
    } else if n == "dispensar"@ {
        vazio.insert("no"@, campo_do_tipo_spec("string"@, Some("nome do nó que você recrutou"@)))
    } else {
        vazio
    }
}

/// Uma entrada do `tools/list`: nome, descrição e esquema de entrada, com
/// as propriedades de cada argumento.
pub open spec fn entrada_ok(e: ValorJson, nome: Seq<char>) -> bool {
    &&& e matches ValorJson::Objeto(m) && m.dom() == Set::<Seq<char>>::empty().insert("name"@).insert(
        "description"@,
    ).insert("inputSchema"@)
    &&& campo_spec(e, "name"@) == Some(ValorJson::Texto(nome))
    &&& campo_spec(e, "description"@) == Some(ValorJson::Texto(descricao_spec(nome)))
    &&& campo_spec(e, "inputSchema"@) is Some
    &&& esquema_ok(campo_spec(e, "inputSchema"@)->0, obrigatorios_spec(nome))
    &&& campo_spec(campo_spec(e, "inputSchema"@)->0, "properties"@) == Some(
        ValorJson::Objeto(propriedades_spec(nome)),
    )
}

/// Um catálogo inteiro: uma entrada por nome de [`NOMES_DO_CATALOGO`], na ordem.
pub open spec fn catalogo_ok(c: Seq<ValorJson>) -> bool {
    &&& c.len() == 12
    &&& forall|i: int| 0 <= i < 12 ==> entrada_ok(#[trigger] c[i], catalogo_spec()[i])
}

proof fn lema_obrigatorios()
    ensures
        obrigatorios_spec("enviar_para"@) == Seq::empty().push("no"@).push("mensagem"@),
        obrigatorios_spec("avisar"@) == Seq::empty().push("no"@).push("mensagem"@),
        obrigatorios_spec("listar_nos"@) == Seq::<Seq<char>>::empty(),
        obrigatorios_spec("ler_nota"@) == Seq::empty().push("nota"@),
        obrigatorios_spec("escrever_nota"@) == Seq::empty().push("nota"@).push("conteudo"@),
        obrigatorios_spec("listar_arquivos"@) == Seq::<Seq<char>>::empty(),
        obrigatorios_spec("ler_arquivo"@) == Seq::empty().push("caminho"@),
        obrigatorios_spec("escrever_arquivo"@) == Seq::empty().push("caminho"@).push("conteudo"@),
        obrigatorios_spec("perguntar_humano"@) == Seq::empty().push("pergunta"@),
        obrigatorios_spec("concluir"@) == Seq::empty().push("resumo"@),
        obrigatorios_spec("recrutar"@) == Seq::empty().push("papel"@).push("nome"@),
        obrigatorios_spec("dispensar"@) == Seq::empty().push("no"@),
        descricao_spec("enviar_para"@) == "Pergunta a outro nó do canvas e ESPERA a resposta dele. Use quando precisar do trabalho do outro para continuar o seu."@,
        descricao_spec("avisar"@) == "Entrega um recado a outro nó e segue em frente, sem esperar resposta."@,
        descricao_spec("listar_nos"@) == "Lista os nós com quem você pode falar e as notas que pode ler ou escrever. Se um nó não está aqui, ele não existe para você."@,
        descricao_spec("ler_nota"@) == "Lê uma nota compartilhada do canvas."@,
        descricao_spec("escrever_nota"@) == "Escreve numa nota compartilhada. O usuário precisa aprovar antes."@,
        descricao_spec("listar_arquivos"@) == "Lista a pasta do workspace."@,
        descricao_spec("ler_arquivo"@) == "Lê um arquivo de texto da pasta do workspace."@,
        descricao_spec("escrever_arquivo"@) == "Grava um arquivo de texto na pasta do workspace. O usuário precisa aprovar antes."@,
        descricao_spec("perguntar_humano"@) == "Pergunta ao usuário e espera. Use quando faltar uma decisão que não é sua — não invente a resposta."@,
        descricao_spec("concluir"@) == "Marca sua tarefa como entregue, com um resumo do que foi feito."@,
        descricao_spec("recrutar"@) == "Põe no canvas um agente novo, com um papel da biblioteca, já ligado a você. Recrute o mínimo que resolve."@,
        descricao_spec("dispensar"@) == "Encerra a sessão de um agente que você recrutou. O nó e a conversa ficam no canvas."@,
{
    lema_nomes_distintos();
    assert(obrigatorios_spec("listar_nos"@) =~= Seq::<Seq<char>>::empty());
    assert(obrigatorios_spec("listar_arquivos"@) =~= Seq::<Seq<char>>::empty());
}

/// Os nomes do catálogo são distintos: os tamanhos e, onde o tamanho
/// empata, a primeira letra.
proof fn lema_nomes_distintos()
    ensures
        "enviar_para"@.len() == 11,
        "avisar"@.len() == 6,
        "listar_nos"@.len() == 10,
        "ler_nota"@.len() == 8,
        "escrever_nota"@.len() == 13,
        "listar_arquivos"@.len() == 15,
        "ler_arquivo"@.len() == 11,
        "escrever_arquivo"@.len() == 16,
        "perguntar_humano"@.len() == 16,
        "concluir"@.len() == 8,
        "recrutar"@.len() == 8,
        "dispensar"@.len() == 9,
        "ler_nota"@[0] != "concluir"@[0],
        "ler_nota"@[0] != "recrutar"@[0],
        "concluir"@[0] != "recrutar"@[0],
        "enviar_para"@[0] != "ler_arquivo"@[0],
        "escrever_arquivo"@[0] != "perguntar_humano"@[0],
{
    reveal_strlit("enviar_para");
    reveal_strlit("avisar");
    reveal_strlit("listar_nos");
    reveal_strlit("ler_nota");
    reveal_strlit("escrever_nota");
    reveal_strlit("listar_arquivos");
    reveal_strlit("ler_arquivo");
    reveal_strlit("escrever_arquivo");
    reveal_strlit("perguntar_humano");
    reveal_strlit("concluir");
    reveal_strlit("recrutar");
    reveal_strlit("dispensar");
}

/// Uma lista de textos JSON.
fn textos_json(itens: &Vec<&str>) -> (r: serde_json::Value)
    ensures
        conteudo_json(r) == ValorJson::Lista(textos_json_spec(itens@.map_values(|s: &str| s@))),
{
    let ghost alvo = textos_json_spec(itens@.map_values(|s: &str| s@));
    let mut v: Vec<serde_json::Value> = Vec::new();
    let mut i: usize = 0;
    while i < itens.len()
        invariant
            i <= itens@.len(),
            alvo == textos_json_spec(itens@.map_values(|s: &str| s@)),
            v@.map_values(|x: serde_json::Value| conteudo_json(x)) == alvo.take(i as int),
        decreases itens@.len() - i,
    {
        let ghost antes = v@;
        v.push(json_texto(itens[i]));
        proof {
            assert(v@.map_values(|x: serde_json::Value| conteudo_json(x)) == antes.map_values(
                |x: serde_json::Value| conteudo_json(x),
            ).push(ValorJson::Texto(itens@[i as int]@)));
            assert(alvo.take(i + 1) == alvo.take(i as int).push(alvo[i as int]));
        }
        i = i + 1;
    }
    proof {
        assert(alvo.take(itens@.len() as int) == alvo);
    }
    json_lista(v)
}

/// `{"type": tipo}`, com descrição quando há.
fn campo_do_tipo(tipo: &str, descricao: Option<&str>) -> (r: serde_json::Value)
    ensures
        conteudo_json(r) == campo_do_tipo_spec(tipo@, texto_opcional(descricao)),
{
    let mut ps: Vec<(String, serde_json::Value)> = Vec::new();
    ps.push(par("type", json_texto(tipo)));
    match descricao {
        Some(d) => {
            ps.push(par("description", json_texto(d)));
            proof {
                reveal_strlit("type");
                reveal_strlit("description");
                assert("type"@.len() == 4);
                assert("description"@.len() == 11);
                assert(ps@.map_values(|p: (String, serde_json::Value)| (p.0@, conteudo_json(p.1)))
                    =~= Seq::empty().push(("type"@, ValorJson::Texto(tipo@))).push(
                    ("description"@, ValorJson::Texto(d@)),
                ));
            }
        },
        None => {
            proof {
                assert(ps@.map_values(|p: (String, serde_json::Value)| (p.0@, conteudo_json(p.1)))
                    =~= Seq::empty().push(("type"@, ValorJson::Texto(tipo@))));
            }
        },
    }
    json_objeto(ps)
}

/// Uma lista de textos: `{"type": "array", "items": {"type": "string"}}`.
fn lista_de_textos(descricao: Option<&str>) -> (r: serde_json::Value)
    ensures
        conteudo_json(r) == lista_de_textos_spec(texto_opcional(descricao)),
{
    let mut ps: Vec<(String, serde_json::Value)> = Vec::new();
    ps.push(par("type", json_texto("array")));
    ps.push(par("items", campo_do_tipo("string", None)));
    let ghost v2 = ps@.map_values(|p: (String, serde_json::Value)| (p.0@, conteudo_json(p.1)));
    match descricao {
        Some(d) => {
            ps.push(par("description", json_texto(d)));
        },
        None => {},
    }
    proof {
        reveal_strlit("type");
        reveal_strlit("items");
        reveal_strlit("description");
        assert("type"@.len() == 4);
        assert("items"@.len() == 5);
        assert("description"@.len() == 11);
        let pv = ps@.map_values(|p: (String, serde_json::Value)| (p.0@, conteudo_json(p.1)));
        let base = Seq::empty().push(("type"@, ValorJson::Texto("array"@))).push(
            ("items"@, pv[1].1),
        );
        if pv.len() == 3 {
            assert(pv =~= base.push(pv[2]));
        } else {
            assert(pv =~= base);
        }
    }
    json_objeto(ps)
}

/// O esquema de entrada: objeto fechado com as propriedades dadas.
fn esquema(props: Vec<(String, serde_json::Value)>, obrigatorios: Vec<&str>) -> (r:
    serde_json::Value)
    requires
        forall|k: int|
            0 <= k < obrigatorios@.len() ==> props@.map_values(
                |p: (String, serde_json::Value)| p.0@,
            ).contains(#[trigger] obrigatorios@[k]@),
    ensures
        esquema_ok(conteudo_json(r), obrigatorios@.map_values(|s: &str| s@)),
        campo_spec(conteudo_json(r), "properties"@) == Some(
            ValorJson::Objeto(mapa_de(props@.map_values(|p: (String, serde_json::Value)| (p.0@, conteudo_json(p.1))))),
        ),
{
    let ghost pv = props@.map_values(|p: (String, serde_json::Value)| (p.0@, conteudo_json(p.1)));
    let ghost ob = obrigatorios@.map_values(|s: &str| s@);
    let propriedades = json_objeto(props);
    proof {
        assert forall|k: int| 0 <= k < ob.len() implies mapa_de(pv).contains_key(
            #[trigger] ob[k],
        ) by {
            let ks = props@.map_values(|p: (String, serde_json::Value)| p.0@);
            assert(ks.contains(obrigatorios@[k]@));
            let i = choose|i: int| 0 <= i < ks.len() && ks[i] == obrigatorios@[k]@;
            assert(pv[i].0 == ob[k]);
            lema_chave_no_mapa(pv, i);
        }
        reveal_strlit("type");
        reveal_strlit("properties");
        reveal_strlit("required");
        reveal_strlit("additionalProperties");
        assert("type"@.len() == 4);
        assert("properties"@.len() == 10);
        assert("required"@.len() == 8);
        assert("additionalProperties"@.len() == 20);
    }
    let mut ps: Vec<(String, serde_json::Value)> = Vec::new();
    ps.push(par("type", json_texto("object")));
    ps.push(par("properties", propriedades));
    if obrigatorios.len() > 0 {
        let lista = textos_json(&obrigatorios);
        ps.push(par("required", lista));
        ps.push(par("additionalProperties", json_bool(false)));
        proof {
            assert(ps@.map_values(|p: (String, serde_json::Value)| (p.0@, conteudo_json(p.1))) =~= Seq::empty().push(
                ("type"@, ValorJson::Texto("object"@)),
            ).push(("properties"@, ValorJson::Objeto(mapa_de(pv)))).push(
                ("required"@, ValorJson::Lista(textos_json_spec(ob))),
            ).push(("additionalProperties"@, ValorJson::Booleano(false))));
        }
        let r = json_objeto(ps);
        proof {
            let m = mapa_de(ps@.map_values(|p: (String, serde_json::Value)| (p.0@, conteudo_json(p.1))));
            assert(m.dom() =~= Set::<Seq<char>>::empty().insert("type"@).insert("properties"@).insert(
                "additionalProperties"@,
            ).insert("required"@));
        }
        r
    } else {
        ps.push(par("additionalProperties", json_bool(false)));
        proof {
            assert(ps@.map_values(|p: (String, serde_json::Value)| (p.0@, conteudo_json(p.1))) =~= Seq::empty().push(
                ("type"@, ValorJson::Texto("object"@)),
            ).push(("properties"@, ValorJson::Objeto(mapa_de(pv)))).push(
                ("additionalProperties"@, ValorJson::Booleano(false)),
            ));
        }
        let r = json_objeto(ps);
        proof {
            let m = mapa_de(ps@.map_values(|p: (String, serde_json::Value)| (p.0@, conteudo_json(p.1))));
            assert(m.dom() =~= Set::<Seq<char>>::empty().insert("type"@).insert("properties"@).insert(
                "additionalProperties"@,
            ));
        }
        r
    }
}

/// Uma entrada do catálogo.
fn ferramenta(nome: &str, descricao: &str, entrada: serde_json::Value) -> (r: serde_json::Value)
    requires
        esquema_ok(conteudo_json(entrada), obrigatorios_spec(nome@)),
        campo_spec(conteudo_json(entrada), "properties"@) == Some(ValorJson::Objeto(propriedades_spec(nome@))),
        descricao@ == descricao_spec(nome@),
    ensures
        entrada_ok(conteudo_json(r), nome@),
{
    let mut ps: Vec<(String, serde_json::Value)> = Vec::new();
    ps.push(par("name", json_texto(nome)));
    ps.push(par("description", json_texto(descricao)));
    ps.push(par("inputSchema", entrada));
    proof {
        reveal_strlit("name");
        reveal_strlit("description");
        reveal_strlit("inputSchema");
        assert("name"@.len() == 4);
        assert("description"@[0] != "inputSchema"@[0]);
        assert(ps@.map_values(|p: (String, serde_json::Value)| (p.0@, conteudo_json(p.1)))
            =~= Seq::empty().push(("name"@, ValorJson::Texto(nome@))).push(
            ("description"@, ValorJson::Texto(descricao@)),
        ).push(("inputSchema"@, conteudo_json(entrada))));
    }
    json_objeto(ps)
}

/// `{"type": "string", "enum": ["substituir", "acrescentar"]}`.
fn modo_de_escrita() -> (r: serde_json::Value)
    ensures
        conteudo_json(r) == modo_de_escrita_spec(),
{
    let mut modos: Vec<&str> = Vec::new();
    modos.push("substituir");
    modos.push("acrescentar");
    let mut ps: Vec<(String, serde_json::Value)> = Vec::new();
    ps.push(par("type", json_texto("string")));
    ps.push(par("enum", textos_json(&modos)));
    proof {
        let l = textos_json_spec(modos@.map_values(|s: &str| s@));
        assert(l =~= seq![ValorJson::Texto("substituir"@), ValorJson::Texto("acrescentar"@)]);
        let pares = ps@.map_values(|p: (String, serde_json::Value)| (p.0@, conteudo_json(p.1)));
        assert(pares =~= Seq::empty().push(("type"@, ValorJson::Texto("string"@))).push(
            ("enum"@, ValorJson::Lista(l)),
        ));
        assert(pares.drop_last().drop_last() =~= Seq::<(Seq<char>, ValorJson)>::empty());
        assert(mapa_de(pares) == mapa_de(pares.drop_last()).insert("enum"@, ValorJson::Lista(l)));
        assert(mapa_de(pares.drop_last()) == mapa_de(pares.drop_last().drop_last()).insert(
            "type"@,
            ValorJson::Texto("string"@),
        ));
    }
    json_objeto(ps)
}

/// Uma entrada do catálogo a partir das propriedades e dos obrigatórios.
fn entrada(
    nome: &str,
    descricao: &str,
    props: Vec<(String, serde_json::Value)>,
    obrigatorios: Vec<&str>,
) -> (r: serde_json::Value)
    requires
        obrigatorios@.map_values(|s: &str| s@) == obrigatorios_spec(nome@),
        descricao@ == descricao_spec(nome@),
        mapa_de(props@.map_values(|p: (String, serde_json::Value)| (p.0@, conteudo_json(p.1))))
            == propriedades_spec(nome@),
        forall|k: int|
            0 <= k < obrigatorios@.len() ==> props@.map_values(
                |p: (String, serde_json::Value)| p.0@,
            ).contains(#[trigger] obrigatorios@[k]@),
    ensures
        entrada_ok(conteudo_json(r), nome@),
{
    let e = esquema(props, obrigatorios);
    ferramenta(nome, descricao, e)
}

/// O catálogo que o `tools/list` devolve, na ordem de [`NOMES_DO_CATALOGO`].
///
/// As descrições são escritas para o modelo: são a única instrução que ele
/// recebe sobre como a ponte funciona.
pub fn catalogo() -> (r: Vec<serde_json::Value>)
    ensures
        catalogo_ok(r@.map_values(|x: serde_json::Value| conteudo_json(x))),
{
    proof {
        lema_obrigatorios();
        lema_nomes_distintos();
    }
    let mut r: Vec<serde_json::Value> = Vec::new();
    {
        let mut props: Vec<(String, serde_json::Value)> = Vec::new();
        props.push(par("no", campo_do_tipo("string", Some("nome do nó vizinho, como aparece no canvas"))));
        props.push(par("mensagem", campo_do_tipo("string", Some("o que você precisa dele"))));
        props.push(par("refs", lista_de_textos(Some("notas ou arquivos citados, para ele saber onde olhar"))));
        props.push(par("prazo_ms", campo_do_tipo("integer", Some("quanto esperar; padrão 600000"))));
        let mut obrigatorios: Vec<&str> = Vec::new();
        obrigatorios.push("no");
        obrigatorios.push("mensagem");
        proof {
            assert(obrigatorios@.map_values(|s: &str| s@) =~= obrigatorios_spec("enviar_para"@));
            assert(props@.map_values(|p: (String, serde_json::Value)| p.0@)[0] == obrigatorios@[0]@);
            assert(props@.map_values(|p: (String, serde_json::Value)| p.0@)[1] == obrigatorios@[1]@);
        }
        proof {
            let pv = props@.map_values(|p: (String, serde_json::Value)| (p.0@, conteudo_json(p.1)));
            assert(pv =~= Seq::<(Seq<char>, ValorJson)>::empty().push(pv[0]).push(pv[1]).push(pv[2]).push(pv[3]));
            assert(mapa_de(pv) == mapa_de(Seq::<(Seq<char>, ValorJson)>::empty().push(pv[0]).push(pv[1]).push(pv[2]).push(pv[3])));
            assert(mapa_de(pv) =~= propriedades_spec("enviar_para"@));
        }
        r.push(entrada("enviar_para", "Pergunta a outro nó do canvas e ESPERA a resposta dele. Use quando precisar do trabalho do outro para continuar o seu.", props, obrigatorios));
    }
    {
        let mut props: Vec<(String, serde_json::Value)> = Vec::new();
        props.push(par("no", campo_do_tipo("string", Some("nome do nó vizinho"))));
        props.push(par("mensagem", campo_do_tipo("string", None)));
        let mut obrigatorios: Vec<&str> = Vec::new();
        obrigatorios.push("no");
        obrigatorios.push("mensagem");
        proof {
            assert(obrigatorios@.map_values(|s: &str| s@) =~= obrigatorios_spec("avisar"@));
            assert(props@.map_values(|p: (String, serde_json::Value)| p.0@)[0] == obrigatorios@[0]@);
            assert(props@.map_values(|p: (String, serde_json::Value)| p.0@)[1] == obrigatorios@[1]@);
        }
        proof {
            let pv = props@.map_values(|p: (String, serde_json::Value)| (p.0@, conteudo_json(p.1)));
            assert(pv =~= Seq::<(Seq<char>, ValorJson)>::empty().push(pv[0]).push(pv[1]));
            assert(mapa_de(pv) == mapa_de(Seq::<(Seq<char>, ValorJson)>::empty().push(pv[0]).push(pv[1])));
            assert(mapa_de(pv) =~= propriedades_spec("avisar"@));
        }
        r.push(entrada("avisar", "Entrega um recado a outro nó e segue em frente, sem esperar resposta.", props, obrigatorios));
    }
    {
        let mut props: Vec<(String, serde_json::Value)> = Vec::new();
        let mut obrigatorios: Vec<&str> = Vec::new();
        proof {
            assert(obrigatorios@.map_values(|s: &str| s@) =~= obrigatorios_spec("listar_nos"@));
        }
        proof {
            let pv = props@.map_values(|p: (String, serde_json::Value)| (p.0@, conteudo_json(p.1)));
            assert(pv =~= Seq::<(Seq<char>, ValorJson)>::empty());
            assert(mapa_de(pv) == mapa_de(Seq::<(Seq<char>, ValorJson)>::empty()));
            assert(mapa_de(pv) =~= propriedades_spec("listar_nos"@));
        }
        r.push(entrada("listar_nos", "Lista os nós com quem você pode falar e as notas que pode ler ou escrever. Se um nó não está aqui, ele não existe para você.", props, obrigatorios));
    }
    {
        let mut props: Vec<(String, serde_json::Value)> = Vec::new();
        props.push(par("nota", campo_do_tipo("string", Some("nome do nó de nota"))));
        let mut obrigatorios: Vec<&str> = Vec::new();
        obrigatorios.push("nota");
        proof {
            assert(obrigatorios@.map_values(|s: &str| s@) =~= obrigatorios_spec("ler_nota"@));
            assert(props@.map_values(|p: (String, serde_json::Value)| p.0@)[0] == obrigatorios@[0]@);
        }
        proof {
            let pv = props@.map_values(|p: (String, serde_json::Value)| (p.0@, conteudo_json(p.1)));
            assert(pv =~= Seq::<(Seq<char>, ValorJson)>::empty().push(pv[0]));
            assert(mapa_de(pv) == mapa_de(Seq::<(Seq<char>, ValorJson)>::empty().push(pv[0])));
            assert(mapa_de(pv) =~= propriedades_spec("ler_nota"@));
        }
        r.push(entrada("ler_nota", "Lê uma nota compartilhada do canvas.", props, obrigatorios));
    }
    {
        let mut props: Vec<(String, serde_json::Value)> = Vec::new();
        props.push(par("nota", campo_do_tipo("string", None)));
        props.push(par("conteudo", campo_do_tipo("string", None)));
        props.push(par("modo", modo_de_escrita()));
        let mut obrigatorios: Vec<&str> = Vec::new();
        obrigatorios.push("nota");
        obrigatorios.push("conteudo");
        proof {
            assert(obrigatorios@.map_values(|s: &str| s@) =~= obrigatorios_spec("escrever_nota"@));
            assert(props@.map_values(|p: (String, serde_json::Value)| p.0@)[0] == obrigatorios@[0]@);
            assert(props@.map_values(|p: (String, serde_json::Value)| p.0@)[1] == obrigatorios@[1]@);
        }
        proof {
            let pv = props@.map_values(|p: (String, serde_json::Value)| (p.0@, conteudo_json(p.1)));
            assert(pv =~= Seq::<(Seq<char>, ValorJson)>::empty().push(pv[0]).push(pv[1]).push(pv[2]));
            assert(mapa_de(pv) == mapa_de(Seq::<(Seq<char>, ValorJson)>::empty().push(pv[0]).push(pv[1]).push(pv[2])));
            assert(mapa_de(pv) =~= propriedades_spec("escrever_nota"@));
        }
        r.push(entrada("escrever_nota", "Escreve numa nota compartilhada. O usuário precisa aprovar antes.", props, obrigatorios));
    }
    {
        let mut props: Vec<(String, serde_json::Value)> = Vec::new();
        props.push(par("caminho", campo_do_tipo("string", Some("subpasta; vazio é a raiz"))));
        let mut obrigatorios: Vec<&str> = Vec::new();
        proof {
            assert(obrigatorios@.map_values(|s: &str| s@) =~= obrigatorios_spec("listar_arquivos"@));
        }
        proof {
            let pv = props@.map_values(|p: (String, serde_json::Value)| (p.0@, conteudo_json(p.1)));
            assert(pv =~= Seq::<(Seq<char>, ValorJson)>::empty().push(pv[0]));
            assert(mapa_de(pv) == mapa_de(Seq::<(Seq<char>, ValorJson)>::empty().push(pv[0])));
            assert(mapa_de(pv) =~= propriedades_spec("listar_arquivos"@));
        }
        r.push(entrada("listar_arquivos", "Lista a pasta do workspace.", props, obrigatorios));
    }
    {
        let mut props: Vec<(String, serde_json::Value)> = Vec::new();
        props.push(par("caminho", campo_do_tipo("string", None)));
        let mut obrigatorios: Vec<&str> = Vec::new();
        obrigatorios.push("caminho");
        proof {
            assert(obrigatorios@.map_values(|s: &str| s@) =~= obrigatorios_spec("ler_arquivo"@));
            assert(props@.map_values(|p: (String, serde_json::Value)| p.0@)[0] == obrigatorios@[0]@);
        }
        proof {
            let pv = props@.map_values(|p: (String, serde_json::Value)| (p.0@, conteudo_json(p.1)));
            assert(pv =~= Seq::<(Seq<char>, ValorJson)>::empty().push(pv[0]));
            assert(mapa_de(pv) == mapa_de(Seq::<(Seq<char>, ValorJson)>::empty().push(pv[0])));
            assert(mapa_de(pv) =~= propriedades_spec("ler_arquivo"@));
        }
        r.push(entrada("ler_arquivo", "Lê um arquivo de texto da pasta do workspace.", props, obrigatorios));
    }
    {
        let mut props: Vec<(String, serde_json::Value)> = Vec::new();
        props.push(par("caminho", campo_do_tipo("string", None)));
        props.push(par("conteudo", campo_do_tipo("string", None)));
        let mut obrigatorios: Vec<&str> = Vec::new();
        obrigatorios.push("caminho");
        obrigatorios.push("conteudo");
        proof {
            assert(obrigatorios@.map_values(|s: &str| s@) =~= obrigatorios_spec("escrever_arquivo"@));
            assert(props@.map_values(|p: (String, serde_json::Value)| p.0@)[0] == obrigatorios@[0]@);
            assert(props@.map_values(|p: (String, serde_json::Value)| p.0@)[1] == obrigatorios@[1]@);
        }
        proof {
            let pv = props@.map_values(|p: (String, serde_json::Value)| (p.0@, conteudo_json(p.1)));
            assert(pv =~= Seq::<(Seq<char>, ValorJson)>::empty().push(pv[0]).push(pv[1]));
            assert(mapa_de(pv) == mapa_de(Seq::<(Seq<char>, ValorJson)>::empty().push(pv[0]).push(pv[1])));
            assert(mapa_de(pv) =~= propriedades_spec("escrever_arquivo"@));
        }
        r.push(entrada("escrever_arquivo", "Grava um arquivo de texto na pasta do workspace. O usuário precisa aprovar antes.", props, obrigatorios));
    }
    {
        let mut props: Vec<(String, serde_json::Value)> = Vec::new();
        props.push(par("pergunta", campo_do_tipo("string", None)));
        props.push(par("opcoes", lista_de_textos(None)));
        let mut obrigatorios: Vec<&str> = Vec::new();
        obrigatorios.push("pergunta");
        proof {
            assert(obrigatorios@.map_values(|s: &str| s@) =~= obrigatorios_spec("perguntar_humano"@));
            assert(props@.map_values(|p: (String, serde_json::Value)| p.0@)[0] == obrigatorios@[0]@);
        }
        proof {
            let pv = props@.map_values(|p: (String, serde_json::Value)| (p.0@, conteudo_json(p.1)));
            assert(pv =~= Seq::<(Seq<char>, ValorJson)>::empty().push(pv[0]).push(pv[1]));
            assert(mapa_de(pv) == mapa_de(Seq::<(Seq<char>, ValorJson)>::empty().push(pv[0]).push(pv[1])));
            assert(mapa_de(pv) =~= propriedades_spec("perguntar_humano"@));
        }
        r.push(entrada("perguntar_humano", "Pergunta ao usuário e espera. Use quando faltar uma decisão que não é sua — não invente a resposta.", props, obrigatorios));
    }
    {
        let mut props: Vec<(String, serde_json::Value)> = Vec::new();
        props.push(par("resumo", campo_do_tipo("string", None)));
        let mut obrigatorios: Vec<&str> = Vec::new();
        obrigatorios.push("resumo");
        proof {
            assert(obrigatorios@.map_values(|s: &str| s@) =~= obrigatorios_spec("concluir"@));
            assert(props@.map_values(|p: (String, serde_json::Value)| p.0@)[0] == obrigatorios@[0]@);
        }
        proof {
            let pv = props@.map_values(|p: (String, serde_json::Value)| (p.0@, conteudo_json(p.1)));
            assert(pv =~= Seq::<(Seq<char>, ValorJson)>::empty().push(pv[0]));
            assert(mapa_de(pv) == mapa_de(Seq::<(Seq<char>, ValorJson)>::empty().push(pv[0])));
            assert(mapa_de(pv) =~= propriedades_spec("concluir"@));
        }
        r.push(entrada("concluir", "Marca sua tarefa como entregue, com um resumo do que foi feito.", props, obrigatorios));
    }
    {
        let mut props: Vec<(String, serde_json::Value)> = Vec::new();
        props.push(par("papel", campo_do_tipo("string", Some("nome do papel na biblioteca"))));
        props.push(par("nome", campo_do_tipo("string", Some("como o nó vai aparecer no canvas"))));
        let mut obrigatorios: Vec<&str> = Vec::new();
        obrigatorios.push("papel");
        obrigatorios.push("nome");
        proof {
            assert(obrigatorios@.map_values(|s: &str| s@) =~= obrigatorios_spec("recrutar"@));
            assert(props@.map_values(|p: (String, serde_json::Value)| p.0@)[0] == obrigatorios@[0]@);
            assert(props@.map_values(|p: (String, serde_json::Value)| p.0@)[1] == obrigatorios@[1]@);
        }
        proof {
            let pv = props@.map_values(|p: (String, serde_json::Value)| (p.0@, conteudo_json(p.1)));
            assert(pv =~= Seq::<(Seq<char>, ValorJson)>::empty().push(pv[0]).push(pv[1]));
            assert(mapa_de(pv) == mapa_de(Seq::<(Seq<char>, ValorJson)>::empty().push(pv[0]).push(pv[1])));
            assert(mapa_de(pv) =~= propriedades_spec("recrutar"@));
        }
        r.push(entrada("recrutar", "Põe no canvas um agente novo, com um papel da biblioteca, já ligado a você. Recrute o mínimo que resolve.", props, obrigatorios));
    }
    {
        let mut props: Vec<(String, serde_json::Value)> = Vec::new();
        props.push(par("no", campo_do_tipo("string", Some("nome do nó que você recrutou"))));
        let mut obrigatorios: Vec<&str> = Vec::new();
        obrigatorios.push("no");
        proof {
            assert(obrigatorios@.map_values(|s: &str| s@) =~= obrigatorios_spec("dispensar"@));
            assert(props@.map_values(|p: (String, serde_json::Value)| p.0@)[0] == obrigatorios@[0]@);
        }
        proof {
            let pv = props@.map_values(|p: (String, serde_json::Value)| (p.0@, conteudo_json(p.1)));
            assert(pv =~= Seq::<(Seq<char>, ValorJson)>::empty().push(pv[0]));
            assert(mapa_de(pv) == mapa_de(Seq::<(Seq<char>, ValorJson)>::empty().push(pv[0])));
            assert(mapa_de(pv) =~= propriedades_spec("dispensar"@));
        }
        r.push(entrada("dispensar", "Encerra a sessão de um agente que você recrutou. O nó e a conversa ficam no canvas.", props, obrigatorios));
    }
    proof {
        let c = r@.map_values(|x: serde_json::Value| conteudo_json(x));
        assert forall|i: int| 0 <= i < 12 implies entrada_ok(#[trigger] c[i], catalogo_spec()[i]) by {
            assert(c[i] == conteudo_json(r@[i]));
        }
    }
    r
}

// ------------------------------------------------------------ execução

/// O que uma chamada de ferramenta pede, lido dos argumentos. Quem executa
/// (banco, disco, os outros nós) é a borda; a leitura e as recusas são daqui.
#[derive(Debug)]
pub enum Chamada {
    /// `enviar_para` (`espera`) ou `avisar`.
    Mensagem { no: String, corpo: String, prazo_ms: u64, espera: bool },
    ListarNos,
    LerNota { nota: String },
    EscreverNota { nota: String, conteudo: String, acrescentar: bool },
    /// Subpasta; vazio é a raiz.
    ListarArquivos { caminho: String },
    LerArquivo { caminho: String },
    EscreverArquivo { caminho: String, conteudo: String },
    PerguntarHumano { pergunta: String, opcoes: Vec<String> },
    Concluir { resumo: String },
    Recrutar { papel: String, nome: String },
    Dispensar { no: String },
}

/// O texto de uma chave, se ela é texto e não está em branco.
pub open spec fn preenchido(j: ValorJson, c: Seq<char>) -> Option<Seq<char>> {
    match como_texto_spec(campo_spec(j, c)) {
        Some(s) => if aparado(s).len() == 0 {
            None
        } else {
            Some(s)
        },
        None => None,
    }
}

/// O primeiro campo obrigatório, a partir de `i`, que falta ou está em branco.
pub open spec fn primeiro_ausente(j: ValorJson, campos: Seq<Seq<char>>, i: int) -> Option<Seq<char>>
    decreases campos.len() - i,
{
    if i < 0 || i >= campos.len() {
        None
    } else if preenchido(j, campos[i]) is None {
        Some(campos[i])
    } else {
        primeiro_ausente(j, campos, i + 1)
    }
}

/// A frase de um campo que falta.
pub open spec fn falta_o_campo(c: Seq<char>) -> Seq<char> {
    "falta o campo \""@ + c + "\""@
}

/// O recado com as referências citadas, quando há alguma.
pub open spec fn corpo_spec(mensagem: Seq<char>, j: ValorJson) -> Seq<char> {
    match campo_spec(j, "refs"@) {
        Some(ValorJson::Lista(l)) => if l.len() > 0 {
            mensagem + "\n\n(citado: "@ + juntar(textos_de(l), ", "@) + ")"@
        } else {
            mensagem
        },
        _ => mensagem,
    }
}

/// O prazo pedido, quando é um natural que cabe em `u64`.
pub open spec fn prazo_pedido_spec(j: ValorJson) -> Option<u64> {
    match u64_de(j, "prazo_ms"@) {
        Some(n) => Some(n as u64),
        None => None,
    }
}

/// A chamada lida de uma ferramenta do catálogo cujos obrigatórios vieram.
pub open spec fn chamada_ok(c: Chamada, n: Seq<char>, j: ValorJson) -> bool {
    let t = |k: Seq<char>| texto_ou_vazio(j, k);
    if n == "enviar_para"@ || n == "avisar"@ {
        c matches Chamada::Mensagem { no, corpo, prazo_ms, espera } && no@ == t("no"@) && corpo@
            == corpo_spec(t("mensagem"@), j) && prazo_ms == prazo_spec(prazo_pedido_spec(j))
            && espera == (n == "enviar_para"@)
    } else if n == "listar_nos"@ {
        c is ListarNos
    } else if n == "ler_nota"@ {
        c matches Chamada::LerNota { nota } && nota@ == t("nota"@)
    } else if n == "escrever_nota"@ {
        c matches Chamada::EscreverNota { nota, conteudo, acrescentar } && nota@ == t("nota"@)
            && conteudo@ == t("conteudo"@) && acrescentar == (campo_spec(j, "modo"@) == Some(
            ValorJson::Texto("acrescentar"@),
        ))
    } else if n == "listar_arquivos"@ {
        c matches Chamada::ListarArquivos { caminho } && caminho@ == t("caminho"@)
    } else if n == "ler_arquivo"@ {
        c matches Chamada::LerArquivo { caminho } && caminho@ == t("caminho"@)
    } else if n == "escrever_arquivo"@ {
        c matches Chamada::EscreverArquivo { caminho, conteudo } && caminho@ == t("caminho"@)
            && conteudo@ == t("conteudo"@)
    } else if n == "perguntar_humano"@ {
        c matches Chamada::PerguntarHumano { pergunta, opcoes } && pergunta@ == t("pergunta"@)
            && opcoes@.map_values(|s: String| s@) == match campo_spec(j, "opcoes"@) {
            Some(ValorJson::Lista(l)) => textos_de(l),
            _ => Seq::empty(),
        }
    } else if n == "concluir"@ {
        c matches Chamada::Concluir { resumo } && resumo@ == t("resumo"@)
    } else if n == "recrutar"@ {
        c matches Chamada::Recrutar { papel, nome } && papel@ == t("papel"@) && nome@ == t("nome"@)
    } else {
        c matches Chamada::Dispensar { no } && no@ == t("no"@)
    }
}

/// O texto de um campo obrigatório: presente, texto e não em branco.
pub fn campo_texto(args: &serde_json::Value, c: &str) -> (r: Result<String, Erro>)
    ensures
        match preenchido(conteudo_json(*args), c@) {
            Some(s) => r matches Ok(x) && x@ == s,
            None => r matches Err(Erro::Invalido(m)) && m@ == falta_o_campo(c@),
        },
{
    match texto_do_campo(args, c) {
        Some(s) => {
            if !em_branco(s) {
                return Ok(s.to_string());
            }
        },
        None => {},
    }
    let mut v: Vec<char> = Vec::new();
    anexar(&mut v, "falta o campo \"");
    anexar(&mut v, c);
    anexar(&mut v, "\"");
    Err(invalido_de(&v))
}

/// O recado de `enviar_para` e `avisar`, com as referências citadas.
pub fn corpo_com_refs(mensagem: String, args: &serde_json::Value) -> (r: String)
    ensures
        r@ == corpo_spec(mensagem@, conteudo_json(*args)),
{
    let refs = textos_do_campo(args, "refs");
    let ha_lista = match campo(args, "refs") {
        Some(x) => match crate::json::como_lista(x) {
            Some(l) => l.len() > 0,
            None => false,
        },
        None => false,
    };
    if !ha_lista {
        return mensagem;
    }
    let mut partes: Vec<Vec<char>> = Vec::new();
    let mut i: usize = 0;
    while i < refs.len()
        invariant
            i <= refs@.len(),
            partes@.map_values(|p: Vec<char>| p@) == refs@.map_values(|s: String| s@).take(i as int),
        decreases refs@.len() - i,
    {
        let ghost antes = partes@;
        partes.push(chars_de(refs[i].as_str()));
        proof {
            assert(partes@.map_values(|p: Vec<char>| p@) == antes.map_values(|p: Vec<char>| p@).push(
                refs@[i as int]@,
            ));
            assert(refs@.map_values(|s: String| s@).take(i + 1) == refs@.map_values(
                |s: String| s@,
            ).take(i as int).push(refs@[i as int]@));
        }
        i = i + 1;
    }
    proof {
        assert(refs@.map_values(|s: String| s@).take(refs@.len() as int) == refs@.map_values(
            |s: String| s@,
        ));
    }
    let mut v = chars_de(mensagem.as_str());
    anexar(&mut v, "\n\n(citado: ");
    let lista = juntar_chars(&partes, ", ");
    anexar_chars(&mut v, &lista);
    anexar(&mut v, ")");
    string_de(&v)
}

/// Quanto esperar por uma resposta, a partir dos argumentos: o `prazo_ms`
/// pedido, se positivo, senão o padrão, e nunca mais que o teto. Sem teto um
/// agente pediria um prazo de dias e prenderia o nó.
pub fn prazo_pedido(args: &serde_json::Value) -> (r: u64)
    ensures
        r == prazo_spec(prazo_pedido_spec(conteudo_json(*args))),
        0 < r <= PRAZO_MENSAGEM_TETO_MS,
{
    prazo_do_pedido(prazo_pedido_de(args))
}

/// O `prazo_ms` pedido, quando é um natural que cabe em `u64`.
fn prazo_pedido_de(args: &serde_json::Value) -> (r: Option<u64>)
    ensures
        r == prazo_pedido_spec(conteudo_json(*args)),
{
    match campo(args, "prazo_ms") {
        Some(x) => como_u64(x),
        None => None,
    }
}

/// Lê uma chamada de ferramenta: o nome (sem prefixo) e os argumentos.
///
/// Nome fora do catálogo é recusado; campo obrigatório ausente ou em branco
/// também, com o nome do primeiro que faltou. O resto é lido como a
/// ferramenta o entende: `modo` só acrescenta quando diz `acrescentar`, e o
/// prazo passa pelo teto.
pub fn interpretar(nome: &str, args: &serde_json::Value) -> (r: Result<Chamada, Erro>)
    ensures
        !catalogo_spec().contains(nome@) ==> (r matches Err(Erro::Invalido(m)) && m@
            == "não existe ferramenta chamada "@ + nome@),
        catalogo_spec().contains(nome@) ==> match primeiro_ausente(
            conteudo_json(*args),
            obrigatorios_spec(nome@),
            0,
        ) {
            Some(c) => r matches Err(Erro::Invalido(m)) && m@ == falta_o_campo(c),
            None => r matches Ok(ch) && chamada_ok(ch, nome@, conteudo_json(*args)),
        },
{
    proof {
        lema_obrigatorios();
        lema_catalogo();
        reveal_with_fuel(primeiro_ausente, 3);
    }
    let ghost j = conteudo_json(*args);
    if iguais(nome, "enviar_para") || iguais(nome, "avisar") {
        let no = match campo_texto(args, "no") {
            Ok(s) => s,
            Err(e) => return Err(e),
        };
        let mensagem = match campo_texto(args, "mensagem") {
            Ok(s) => s,
            Err(e) => return Err(e),
        };
        let corpo = corpo_com_refs(mensagem, args);
        let prazo_ms = prazo_pedido(args);
        return Ok(Chamada::Mensagem { no, corpo, prazo_ms, espera: iguais(nome, "enviar_para") });
    }
    if iguais(nome, "listar_nos") {
        return Ok(Chamada::ListarNos);
    }
    if iguais(nome, "ler_nota") {
        let nota = match campo_texto(args, "nota") {
            Ok(s) => s,
            Err(e) => return Err(e),
        };
        return Ok(Chamada::LerNota { nota });
    }
    if iguais(nome, "escrever_nota") {
        let nota = match campo_texto(args, "nota") {
            Ok(s) => s,
            Err(e) => return Err(e),
        };
        let conteudo = match campo_texto(args, "conteudo") {
            Ok(s) => s,
            Err(e) => return Err(e),
        };
        let acrescentar = match texto_do_campo(args, "modo") {
            Some(m) => iguais(m, "acrescentar"),
            None => false,
        };
        return Ok(Chamada::EscreverNota { nota, conteudo, acrescentar });
    }
    if iguais(nome, "listar_arquivos") {
        return Ok(Chamada::ListarArquivos { caminho: texto_ou_vazio_de(args, "caminho") });
    }
    if iguais(nome, "ler_arquivo") {
        let caminho = match campo_texto(args, "caminho") {
            Ok(s) => s,
            Err(e) => return Err(e),
        };
        return Ok(Chamada::LerArquivo { caminho });
    }
    if iguais(nome, "escrever_arquivo") {
        let caminho = match campo_texto(args, "caminho") {
            Ok(s) => s,
            Err(e) => return Err(e),
        };
        let conteudo = match campo_texto(args, "conteudo") {
            Ok(s) => s,
            Err(e) => return Err(e),
        };
        return Ok(Chamada::EscreverArquivo { caminho, conteudo });
    }
    if iguais(nome, "perguntar_humano") {
        let pergunta = match campo_texto(args, "pergunta") {
            Ok(s) => s,
            Err(e) => return Err(e),
        };
        return Ok(Chamada::PerguntarHumano { pergunta, opcoes: textos_do_campo(args, "opcoes") });
    }
    if iguais(nome, "concluir") {
        let resumo = match campo_texto(args, "resumo") {
            Ok(s) => s,
            Err(e) => return Err(e),
        };
        return Ok(Chamada::Concluir { resumo });
    }
    if iguais(nome, "recrutar") {
        let papel = match campo_texto(args, "papel") {
            Ok(s) => s,
            Err(e) => return Err(e),
        };
        let nome_novo = match campo_texto(args, "nome") {
            Ok(s) => s,
            Err(e) => return Err(e),
        };
        return Ok(Chamada::Recrutar { papel, nome: nome_novo });
    }
    if iguais(nome, "dispensar") {
        let no = match campo_texto(args, "no") {
            Ok(s) => s,
            Err(e) => return Err(e),
        };
        return Ok(Chamada::Dispensar { no });
    }
    let mut v: Vec<char> = Vec::new();
    anexar(&mut v, "não existe ferramenta chamada ");
    anexar(&mut v, nome);
    Err(invalido_de(&v))
}

/// Os nomes do catálogo, um a um.
proof fn lema_catalogo()
    ensures
        forall|n: Seq<char>|
            #[trigger] catalogo_spec().contains(n) <==> (n == "enviar_para"@ || n == "avisar"@ || n
                == "listar_nos"@ || n == "ler_nota"@ || n == "escrever_nota"@ || n
                == "listar_arquivos"@ || n == "ler_arquivo"@ || n == "escrever_arquivo"@ || n
                == "perguntar_humano"@ || n == "concluir"@ || n == "recrutar"@ || n
                == "dispensar"@),
{
    let c = catalogo_spec();
    assert(c.len() == 12);
    assert forall|n: Seq<char>| #[trigger] c.contains(n) implies (n == "enviar_para"@ || n
        == "avisar"@ || n == "listar_nos"@ || n == "ler_nota"@ || n == "escrever_nota"@ || n
        == "listar_arquivos"@ || n == "ler_arquivo"@ || n == "escrever_arquivo"@ || n
        == "perguntar_humano"@ || n == "concluir"@ || n == "recrutar"@ || n == "dispensar"@) by {
        let i = choose|i: int| 0 <= i < c.len() && c[i] == n;
        assert(0 <= i < 12);
    }
    assert(c[0] == "enviar_para"@);
    assert(c[1] == "avisar"@);
    assert(c[2] == "listar_nos"@);
    assert(c[3] == "ler_nota"@);
    assert(c[4] == "escrever_nota"@);
    assert(c[5] == "listar_arquivos"@);
    assert(c[6] == "ler_arquivo"@);
    assert(c[7] == "escrever_arquivo"@);
    assert(c[8] == "perguntar_humano"@);
    assert(c[9] == "concluir"@);
    assert(c[10] == "recrutar"@);
    assert(c[11] == "dispensar"@);
}


// ------------------------------------------------------------- respostas

/// `{k: v}` como valor.
pub open spec fn um_campo(k: Seq<char>, v: ValorJson) -> ValorJson {
    ValorJson::Objeto(mapa_de(seq![(k, v)]))
}

/// A resposta de `enviar_para` (o que o outro nó respondeu, e quem) e de
/// `avisar` (só que foi entregue).
pub open spec fn mensagem_respondida(resposta: Option<Seq<char>>, alvo: Seq<char>) -> ValorJson {
    match resposta {
        Some(t) => ValorJson::Objeto(
            mapa_de(seq![("resposta"@, ValorJson::Texto(t)), ("de"@, ValorJson::Texto(alvo))]),
        ),
        None => um_campo("entregue"@, ValorJson::Booleano(true)),
    }
}

pub fn resultado_de_mensagem(resposta: Option<String>, alvo: &str) -> (r: serde_json::Value)
    ensures
        conteudo_json(r) == mensagem_respondida(
            match resposta {
                Some(t) => Some(t@),
                None => None,
            },
            alvo@,
        ),
{
    let mut ps: Vec<(String, serde_json::Value)> = Vec::new();
    match resposta {
        Some(t) => {
            ps.push(par("resposta", json_texto(t.as_str())));
            ps.push(par("de", json_texto(alvo)));
            assert(ps@.map_values(|p: (String, serde_json::Value)| (p.0@, conteudo_json(p.1)))
                =~= seq![("resposta"@, ValorJson::Texto(t@)), ("de"@, ValorJson::Texto(alvo@))]);
        },
        None => {
            ps.push(par("entregue", json_bool(true)));
            assert(ps@.map_values(|p: (String, serde_json::Value)| (p.0@, conteudo_json(p.1)))
                =~= seq![("entregue"@, ValorJson::Booleano(true))]);
        },
    }
    json_objeto(ps)
}

/// Uma resposta de um campo de texto: `{"conteudo": ...}` de uma leitura,
/// `{"resposta": ...}` de uma pergunta ao humano.
pub fn resultado_de_texto(chave: &str, texto: &str) -> (r: serde_json::Value)
    ensures
        conteudo_json(r) == um_campo(chave@, ValorJson::Texto(texto@)),
{
    let mut ps: Vec<(String, serde_json::Value)> = Vec::new();
    ps.push(par(chave, json_texto(texto)));
    assert(ps@.map_values(|p: (String, serde_json::Value)| (p.0@, conteudo_json(p.1)))
        =~= seq![(chave@, ValorJson::Texto(texto@))]);
    json_objeto(ps)
}

/// A resposta de uma gravação: quantos bytes foram gravados.
pub fn resultado_de_gravacao(bytes: u64) -> (r: serde_json::Value)
    ensures
        conteudo_json(r) == um_campo("bytes"@, ValorJson::Inteiro(bytes as int)),
{
    let mut ps: Vec<(String, serde_json::Value)> = Vec::new();
    ps.push(par("bytes", crate::json::json_u64(bytes)));
    assert(ps@.map_values(|p: (String, serde_json::Value)| (p.0@, conteudo_json(p.1)))
        =~= seq![("bytes"@, ValorJson::Inteiro(bytes as int))]);
    json_objeto(ps)
}

/// A resposta de `concluir`: `{"ok": true}`.
pub fn resultado_de_conclusao() -> (r: serde_json::Value)
    ensures
        conteudo_json(r) == um_campo("ok"@, ValorJson::Booleano(true)),
{
    let mut ps: Vec<(String, serde_json::Value)> = Vec::new();
    ps.push(par("ok", json_bool(true)));
    assert(ps@.map_values(|p: (String, serde_json::Value)| (p.0@, conteudo_json(p.1)))
        =~= seq![("ok"@, ValorJson::Booleano(true))]);
    json_objeto(ps)
}

/// O texto novo de uma nota: o que veio, ou o que havia com o que veio no
/// fim quando o modo é acrescentar.
pub fn texto_da_nota(antes: &str, conteudo: &str, acrescentar: bool) -> (r: String)
    ensures
        r@ == (if acrescentar {
            antes@ + conteudo@
        } else {
            conteudo@
        }),
{
    if acrescentar {
        let mut v = chars_de(antes);
        anexar(&mut v, conteudo);
        string_de(&v)
    } else {
        conteudo.to_string()
    }
}

/// A resposta de gravar um texto: `{"bytes": n}`, com os bytes UTF-8 dele.
pub fn resultado_de_texto_gravado(texto: &str) -> (r: serde_json::Value)
    ensures
        conteudo_json(r) == um_campo("bytes"@, ValorJson::Inteiro(((bytes_utf8(texto@) as usize) as u64) as int)),
{
    let bytes = texto.len();
    resultado_de_gravacao(bytes as u64)
}

/// Uma gravação de nota: o texto que vai para o arquivo (o que veio, ou o
/// que havia com o que veio no fim quando o modo é acrescentar) e a resposta
/// que o modelo recebe, com os bytes desse texto.
pub fn gravacao_da_nota(antes: &str, conteudo: &str, acrescentar: bool) -> (r: (String, serde_json::Value))
    ensures
        r.0@ == (if acrescentar {
            antes@ + conteudo@
        } else {
            conteudo@
        }),
        conteudo_json(r.1) == um_campo("bytes"@, ValorJson::Inteiro(((bytes_utf8(r.0@) as usize) as u64) as int)),
{
    let texto = texto_da_nota(antes, conteudo, acrescentar);
    let resposta = resultado_de_texto_gravado(texto.as_str());
    (texto, resposta)
}

/// O que um cabo deixa um nó fazer com o vizinho, dito para o modelo.
pub open spec fn relacao(c: TipoCabo) -> Seq<char> {
    match c {
        TipoCabo::FalaCom => "posso falar"@,
        TipoCabo::LeNota => "posso ler"@,
        TipoCabo::EscreveNota => "posso escrever"@,
    }
}

/// Um nó visível: nome, tipo e o que o cabo deixa fazer.
pub open spec fn no_visivel(nome: Seq<char>, tipo: TipoNo, cabo: TipoCabo) -> ValorJson {
    ValorJson::Objeto(
        mapa_de(
            seq![
                ("nome"@, ValorJson::Texto(nome)),
                ("tipo"@, ValorJson::Texto(tipo.rotulo())),
                ("relacao"@, ValorJson::Texto(relacao(cabo))),
            ],
        ),
    )
}

fn relacao_exec(c: TipoCabo) -> (r: &'static str)
    ensures
        r@ == relacao(c),
{
    match c {
        TipoCabo::FalaCom => "posso falar",
        TipoCabo::LeNota => "posso ler",
        TipoCabo::EscreveNota => "posso escrever",
    }
}

/// A resposta de `listar_nos`: os vizinhos `(nome, tipo, cabo)`, na ordem em
/// que vieram. Quem não está aqui não existe para o agente.
pub fn nos_visiveis(vistos: &Vec<(String, TipoNo, TipoCabo)>) -> (r: serde_json::Value)
    ensures
        conteudo_json(r) == um_campo(
            "nos"@,
            ValorJson::Lista(
                vistos@.map_values(|v: (String, TipoNo, TipoCabo)| no_visivel(v.0@, v.1, v.2)),
            ),
        ),
{
    let ghost alvo = vistos@.map_values(|v: (String, TipoNo, TipoCabo)| no_visivel(v.0@, v.1, v.2));
    let mut lista: Vec<serde_json::Value> = Vec::new();
    let mut i: usize = 0;
    while i < vistos.len()
        invariant
            i <= vistos@.len(),
            alvo == vistos@.map_values(|v: (String, TipoNo, TipoCabo)| no_visivel(v.0@, v.1, v.2)),
            lista@.map_values(|x: serde_json::Value| conteudo_json(x)) == alvo.take(i as int),
        decreases vistos@.len() - i,
    {
        let mut ps: Vec<(String, serde_json::Value)> = Vec::new();
        ps.push(par("nome", json_texto(vistos[i].0.as_str())));
        ps.push(par("tipo", json_texto(vistos[i].1.como_texto())));
        ps.push(par("relacao", json_texto(relacao_exec(vistos[i].2))));
        assert(ps@.map_values(|p: (String, serde_json::Value)| (p.0@, conteudo_json(p.1))) =~= seq![
            ("nome"@, ValorJson::Texto(vistos@[i as int].0@)),
            ("tipo"@, ValorJson::Texto(vistos@[i as int].1.rotulo())),
            ("relacao"@, ValorJson::Texto(relacao(vistos@[i as int].2))),
        ]);
        let ghost antes = lista@;
        lista.push(json_objeto(ps));
        proof {
            assert(lista@.map_values(|x: serde_json::Value| conteudo_json(x)) =~= antes.map_values(
                |x: serde_json::Value| conteudo_json(x),
            ).push(alvo[i as int]));
            assert(alvo.take(i + 1) =~= alvo.take(i as int).push(alvo[i as int]));
        }
        i = i + 1;
    }
    proof {
        assert(alvo.take(vistos@.len() as int) =~= alvo);
    }
    let l = json_lista(lista);
    let mut ps: Vec<(String, serde_json::Value)> = Vec::new();
    let ghost jl = conteudo_json(l);
    ps.push(par("nos", l));
    assert(ps@.map_values(|p: (String, serde_json::Value)| (p.0@, conteudo_json(p.1)))
        =~= seq![("nos"@, jl)]);
    json_objeto(ps)
}

/// Um item da árvore de arquivos como o modelo o lê.
pub open spec fn item_visivel(i: ItemArquivo) -> ValorJson {
    ValorJson::Objeto(
        mapa_de(
            seq![
                ("caminho"@, ValorJson::Texto(i.caminho@)),
                ("nome"@, ValorJson::Texto(i.nome@)),
                ("pasta"@, ValorJson::Booleano(i.pasta)),
                ("tamanho"@, ValorJson::Inteiro(i.tamanho as int)),
            ],
        ),
    )
}

/// A resposta de `listar_arquivos`: os itens, na ordem dada.
pub fn itens_visiveis(itens: &Vec<ItemArquivo>) -> (r: serde_json::Value)
    ensures
        conteudo_json(r) == um_campo(
            "itens"@,
            ValorJson::Lista(itens@.map_values(|i: ItemArquivo| item_visivel(i))),
        ),
{
    let ghost alvo = itens@.map_values(|i: ItemArquivo| item_visivel(i));
    let mut lista: Vec<serde_json::Value> = Vec::new();
    let mut k: usize = 0;
    while k < itens.len()
        invariant
            k <= itens@.len(),
            alvo == itens@.map_values(|i: ItemArquivo| item_visivel(i)),
            lista@.map_values(|x: serde_json::Value| conteudo_json(x)) == alvo.take(k as int),
        decreases itens@.len() - k,
    {
        let it = &itens[k];
        let mut ps: Vec<(String, serde_json::Value)> = Vec::new();
        ps.push(par("caminho", json_texto(it.caminho.as_str())));
        ps.push(par("nome", json_texto(it.nome.as_str())));
        ps.push(par("pasta", json_bool(it.pasta)));
        ps.push(par("tamanho", crate::json::json_u64(it.tamanho)));
        assert(ps@.map_values(|p: (String, serde_json::Value)| (p.0@, conteudo_json(p.1))) =~= seq![
            ("caminho"@, ValorJson::Texto(it.caminho@)),
            ("nome"@, ValorJson::Texto(it.nome@)),
            ("pasta"@, ValorJson::Booleano(it.pasta)),
            ("tamanho"@, ValorJson::Inteiro(it.tamanho as int)),
        ]);
        let ghost antes = lista@;
        lista.push(json_objeto(ps));
        proof {
            assert(lista@.map_values(|x: serde_json::Value| conteudo_json(x)) =~= antes.map_values(
                |x: serde_json::Value| conteudo_json(x),
            ).push(alvo[k as int]));
            assert(alvo.take(k + 1) =~= alvo.take(k as int).push(alvo[k as int]));
        }
        k = k + 1;
    }
    proof {
        assert(alvo.take(itens@.len() as int) =~= alvo);
    }
    let l = json_lista(lista);
    let mut ps: Vec<(String, serde_json::Value)> = Vec::new();
    let ghost jl = conteudo_json(l);
    ps.push(par("itens", l));
    assert(ps@.map_values(|p: (String, serde_json::Value)| (p.0@, conteudo_json(p.1)))
        =~= seq![("itens"@, jl)]);
    json_objeto(ps)
}

/// O prazo que o agente pede vale: um inteiro positivo abaixo do teto é o
/// prazo da mensagem, tal como veio.
pub proof fn lei_o_prazo_pedido_vale(c: Chamada, n: Seq<char>, j: ValorJson, p: int)
    requires
        n == "enviar_para"@ || n == "avisar"@,
        chamada_ok(c, n, j),
        campo_spec(j, "prazo_ms"@) == Some(ValorJson::Inteiro(p)),
        0 < p < PRAZO_MENSAGEM_TETO_MS,
    ensures
        c matches Chamada::Mensagem { prazo_ms, .. } && prazo_ms == p,
{
}

/// Pedir mais que o teto dá o teto, nunca mais que ele.
pub proof fn lei_o_prazo_para_no_teto(c: Chamada, n: Seq<char>, j: ValorJson, p: int)
    requires
        n == "enviar_para"@ || n == "avisar"@,
        chamada_ok(c, n, j),
        campo_spec(j, "prazo_ms"@) == Some(ValorJson::Inteiro(p)),
        PRAZO_MENSAGEM_TETO_MS <= p <= u64::MAX,
    ensures
        c matches Chamada::Mensagem { prazo_ms, .. } && prazo_ms == PRAZO_MENSAGEM_TETO_MS,
{
}

/// Sem prazo pedido, a mensagem espera o padrão.
pub proof fn lei_sem_prazo_vale_o_padrao(c: Chamada, n: Seq<char>, j: ValorJson)
    requires
        n == "enviar_para"@ || n == "avisar"@,
        chamada_ok(c, n, j),
        campo_spec(j, "prazo_ms"@) is None,
    ensures
        c matches Chamada::Mensagem { prazo_ms, .. } && prazo_ms == PRAZO_MENSAGEM_PADRAO_MS,
{
}

} // verus!
