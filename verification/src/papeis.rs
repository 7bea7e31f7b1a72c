//! Papéis: o que transforma "um agente" em "o Revisor".
//!
//! A autonomia escolhe **quais ferramentas o papel enxerga**, nunca se a
//! aprovação aparece. Um papel pode estreitar a lista da sua autonomia, nunca
//! alargá-la; e montar time é função de quem listou a ferramenta, não de
//! nível nenhum.
//!
//! | | lê e conversa | grava nota e arquivo | roda comando |
//! |---|---|---|---|
//! | `cauteloso` | sim | não | não |
//! | `padrao` | sim | sim, com card | não |
//! | `solto` | sim | sim, com card | sim, com card sempre |

use crate::ferramentas::{
    catalogo_spec, e_de_time, grava, nomes_do_catalogo, FERRAMENTAS_DE_TIME,
};
use crate::modelo::{Autonomia, Papel, ServidorMcp};
use crate::texto::{dono, iguais};
use vstd::prelude::*;

verus! {

broadcast use vstd::string::group_string_axioms;

/// As nativas da CLI do agente de cada nível.
pub open spec fn nativas_spec(a: Autonomia) -> Seq<Seq<char>> {
    match a {
        Autonomia::Cauteloso => seq!["Read"@, "Glob"@, "Grep"@],
        Autonomia::Padrao => seq!["Read"@, "Glob"@, "Grep"@, "Write"@, "Edit"@, "NotebookEdit"@],
        Autonomia::Solto => seq![
            "Read"@,
            "Glob"@,
            "Grep"@,
            "Write"@,
            "Edit"@,
            "NotebookEdit"@,
            "Bash"@,
        ],
    }
}

/// As do barramento de cada nível: conversar, ler e perguntar valem em todo
/// nível; gravar, a partir do `padrao`.
pub open spec fn do_barramento_spec(a: Autonomia) -> Seq<Seq<char>> {
    let base = seq![
        "enviar_para"@,
        "avisar"@,
        "listar_nos"@,
        "ler_nota"@,
        "listar_arquivos"@,
        "ler_arquivo"@,
        "perguntar_humano"@,
        "concluir"@,
    ];
    if a == Autonomia::Cauteloso {
        base
    } else {
        base + seq!["escrever_nota"@, "escrever_arquivo"@]
    }
}

/// O que um papel pode pedir: o do seu nível, mais as de time.
pub open spec fn permitida(a: Autonomia, f: Seq<char>) -> bool {
    do_barramento_spec(a).contains(f) || e_de_time(f)
}

/// As listadas no papel que o nível permite, na ordem em que foram listadas.
pub open spec fn filtradas(fs: Seq<Seq<char>>, a: Autonomia) -> Seq<Seq<char>>
    decreases fs.len(),
{
    if fs.len() == 0 {
        seq![]
    } else {
        let resto = filtradas(fs.drop_last(), a);
        if permitida(a, fs.last()) {
            resto.push(fs.last())
        } else {
            resto
        }
    }
}

/// O catálogo sem as de time, na ordem.
pub open spec fn sem_time(fs: Seq<Seq<char>>) -> Seq<Seq<char>>
    decreases fs.len(),
{
    if fs.len() == 0 {
        seq![]
    } else {
        let resto = sem_time(fs.drop_last());
        if e_de_time(fs.last()) {
            resto
        } else {
            resto.push(fs.last())
        }
    }
}

/// O conjunto final de ferramentas do barramento para um papel.
pub open spec fn ferramentas_spec(papel: Option<Papel>) -> Seq<Seq<char>> {
    match papel {
        None => sem_time(catalogo_spec()),
        Some(p) => if p.ferramentas@.len() == 0 {
            do_barramento_spec(p.autonomia)
        } else {
            filtradas(p.ferramentas@.map_values(|s: String| s@), p.autonomia)
        },
    }
}

/// Ferramentas nativas da CLI do agente liberadas por nível.
pub fn nativas(autonomia: Autonomia) -> (r: &'static [&'static str])
    ensures
        r@.map_values(|s: &str| s@) == nativas_spec(autonomia),
{
    proof {
        reveal_strlit("Read");
    }
    match autonomia {
        Autonomia::Cauteloso => {
            let r: &'static [&'static str] = &["Read", "Glob", "Grep"];
            assert(r@.map_values(|s: &str| s@) =~= nativas_spec(autonomia));
            r
        },
        Autonomia::Padrao => {
            let r: &'static [&'static str] = &["Read", "Glob", "Grep", "Write", "Edit", "NotebookEdit"];
            assert(r@.map_values(|s: &str| s@) =~= nativas_spec(autonomia));
            r
        },
        Autonomia::Solto => {
            let r: &'static [&'static str] = &[
                "Read",
                "Glob",
                "Grep",
                "Write",
                "Edit",
                "NotebookEdit",
                "Bash",
            ];
            assert(r@.map_values(|s: &str| s@) =~= nativas_spec(autonomia));
            r
        },
    }
}

/// Ferramentas do barramento liberadas por nível, sem o prefixo do servidor.
pub fn do_barramento(autonomia: Autonomia) -> (r: Vec<&'static str>)
    ensures
        r@.map_values(|s: &str| s@) == do_barramento_spec(autonomia),
{
    let mut v: Vec<&'static str> = Vec::new();
    v.push("enviar_para");
    v.push("avisar");
    v.push("listar_nos");
    v.push("ler_nota");
    v.push("listar_arquivos");
    v.push("ler_arquivo");
    v.push("perguntar_humano");
    v.push("concluir");
    if autonomia != Autonomia::Cauteloso {
        v.push("escrever_nota");
        v.push("escrever_arquivo");
    }
    assert(v@.map_values(|s: &str| s@) =~= do_barramento_spec(autonomia));
    v
}

/// Está na lista?
fn contem(lista: &Vec<&'static str>, f: &str) -> (r: bool)
    ensures
        r == lista@.map_values(|s: &str| s@).contains(f@),
{
    let ghost vs = lista@.map_values(|s: &str| s@);
    let mut i: usize = 0;
    while i < lista.len()
        invariant
            i <= lista@.len(),
            vs == lista@.map_values(|s: &str| s@),
            forall|k: int| 0 <= k < i ==> vs[k] != f@,
        decreases lista@.len() - i,
    {
        if iguais(lista[i], f) {
            assert(vs[i as int] == f@);
            return true;
        }
        i = i + 1;
    }
    false
}

/// A ferramenta é de montar time?
fn de_time(f: &str) -> (r: bool)
    ensures
        r == e_de_time(f@),
{
    iguais(f, FERRAMENTAS_DE_TIME[0]) || iguais(f, FERRAMENTAS_DE_TIME[1])
}

/// O conjunto final de ferramentas do barramento para um papel.
///
/// Sem papel: tudo que o barramento oferece, menos montar time. Com papel de
/// lista vazia: o que a autonomia der. Com lista: as listadas que a
/// autonomia permite, mais as de time que ele listou.
pub fn ferramentas_do_papel(papel: Option<&Papel>) -> (r: Vec<String>)
    ensures
        r@.map_values(|s: String| s@) == ferramentas_spec(
            match papel {
                Some(p) => Some(*p),
                None => None,
            },
        ),
{
    match papel {
        None => {
            let nomes = nomes_do_catalogo();
            let ghost cs = nomes@.map_values(|s: &str| s@);
            let mut r: Vec<String> = Vec::new();
            let mut i: usize = 0;
            while i < nomes.len()
                invariant
                    i <= nomes@.len(),
                    cs == nomes@.map_values(|s: &str| s@),
                    cs == catalogo_spec(),
                    r@.map_values(|s: String| s@) == sem_time(cs.take(i as int)),
                decreases nomes@.len() - i,
            {
                let ghost antes = r@;
                proof {
                    assert(cs.take(i + 1).drop_last() == cs.take(i as int));
                    assert(cs.take(i + 1).last() == cs[i as int]);
                }
                if !de_time(nomes[i]) {
                    r.push(dono(nomes[i]));
                    proof {
                        assert(r@.map_values(|s: String| s@) == antes.map_values(|s: String| s@).push(
                            cs[i as int],
                        ));
                    }
                }
                i = i + 1;
            }
            proof {
                assert(cs.take(cs.len() as int) == cs);
            }
            r
        },
        Some(p) => {
            let do_nivel = do_barramento(p.autonomia);
            if p.ferramentas.len() == 0 {
                let mut r: Vec<String> = Vec::new();
                let mut i: usize = 0;
                while i < do_nivel.len()
                    invariant
                        i <= do_nivel@.len(),
                        r@.map_values(|s: String| s@) == do_nivel@.map_values(|s: &str| s@).take(
                            i as int,
                        ),
                    decreases do_nivel@.len() - i,
                {
                    let ghost antes = r@;
                    r.push(dono(do_nivel[i]));
                    proof {
                        assert(r@.map_values(|s: String| s@) == antes.map_values(|s: String| s@).push(
                            do_nivel@[i as int]@,
                        ));
                        assert(do_nivel@.map_values(|s: &str| s@).take(i + 1) == do_nivel@.map_values(
                            |s: &str| s@,
                        ).take(i as int).push(do_nivel@[i as int]@));
                    }
                    i = i + 1;
                }
                proof {
                    assert(do_nivel@.map_values(|s: &str| s@).take(do_nivel@.len() as int)
                        == do_nivel@.map_values(|s: &str| s@));
                }
                return r;
            }
            let ghost fs = p.ferramentas@.map_values(|s: String| s@);
            let mut r: Vec<String> = Vec::new();
            let mut i: usize = 0;
            while i < p.ferramentas.len()
                invariant
                    i <= p.ferramentas@.len(),
                    fs == p.ferramentas@.map_values(|s: String| s@),
                    do_nivel@.map_values(|s: &str| s@) == do_barramento_spec(p.autonomia),
                    r@.map_values(|s: String| s@) == filtradas(fs.take(i as int), p.autonomia),
                decreases p.ferramentas@.len() - i,
            {
                let ghost antes = r@;
                let f = p.ferramentas[i].as_str();
                proof {
                    assert(fs.take(i + 1).drop_last() == fs.take(i as int));
                    assert(fs.take(i + 1).last() == fs[i as int]);
                }
                if contem(&do_nivel, f) || de_time(f) {
                    r.push(p.ferramentas[i].clone());
                    proof {
                        assert(r@.map_values(|s: String| s@) == antes.map_values(|s: String| s@).push(
                            fs[i as int],
                        ));
                    }
                }
                i = i + 1;
            }
            proof {
                assert(fs.take(fs.len() as int) == fs);
            }
            r
        },
    }
}

/// As nativas de um papel. Sem papel, o conjunto completo — o que todo nó
/// tinha antes de papel existir.
pub fn nativas_do_papel(papel: Option<&Papel>) -> (r: &'static [&'static str])
    ensures
        r@.map_values(|s: &str| s@) == nativas_spec(
            match papel {
                Some(p) => p.autonomia,
                None => Autonomia::Solto,
            },
        ),
{
    match papel {
        Some(p) => nativas(p.autonomia),
        None => nativas(Autonomia::Solto),
    }
}

/// Este papel pode recrutar? Só quem tem a ferramenta na lista.
pub fn pode_recrutar(papel: Option<&Papel>) -> (r: bool)
    ensures
        r == match papel {
            Some(p) => p.ferramentas@.map_values(|s: String| s@).contains("recrutar"@),
            None => false,
        },
{
    match papel {
        None => false,
        Some(p) => lista_contem(&p.ferramentas, "recrutar"),
    }
}

/// A lista tem esse texto?
pub fn lista_contem(lista: &Vec<String>, x: &str) -> (r: bool)
    ensures
        r == lista@.map_values(|s: String| s@).contains(x@),
{
    let ghost fs = lista@.map_values(|s: String| s@);
    let mut i: usize = 0;
    while i < lista.len()
        invariant
            i <= lista@.len(),
            fs == lista@.map_values(|s: String| s@),
            forall|k: int| 0 <= k < i ==> fs[k] != x@,
        decreases lista@.len() - i,
    {
        if iguais(lista[i].as_str(), x) {
            assert(fs[i as int] == lista@[i as int]@);
            return true;
        }
        i = i + 1;
    }
    false
}

// ------------------------------------------------------------------ leis

proof fn lema_filtradas(fs: Seq<Seq<char>>, a: Autonomia)
    ensures
        forall|i: int|
            0 <= i < filtradas(fs, a).len() ==> permitida(a, #[trigger] filtradas(fs, a)[i])
                && fs.contains(filtradas(fs, a)[i]),
    decreases fs.len(),
{
    if fs.len() > 0 {
        lema_filtradas(fs.drop_last(), a);
        let resto = filtradas(fs.drop_last(), a);
        assert forall|i: int| 0 <= i < filtradas(fs, a).len() implies permitida(
            a,
            #[trigger] filtradas(fs, a)[i],
        ) && fs.contains(filtradas(fs, a)[i]) by {
            if i < resto.len() {
                assert(filtradas(fs, a)[i] == resto[i]);
                let j = choose|j: int| 0 <= j < fs.drop_last().len() && fs.drop_last()[j] == resto[i];
                assert(fs[j] == resto[i]);
            } else {
                assert(fs[fs.len() - 1] == fs.last());
            }
        }
    }
}

/// O papel estreita a lista da autonomia, nunca a alarga: toda ferramenta que
/// um papel enxerga está na escada do seu nível ou é de time — e, se ele
/// listou ferramentas, está entre as que ele listou.
pub proof fn lei_papel_nunca_alarga(p: Papel)
    ensures
        forall|i: int|
            0 <= i < ferramentas_spec(Some(p)).len() ==> permitida(
                p.autonomia,
                #[trigger] ferramentas_spec(Some(p))[i],
            ),
        p.ferramentas@.len() > 0 ==> forall|i: int|
            0 <= i < ferramentas_spec(Some(p)).len() ==> p.ferramentas@.map_values(
                |s: String| s@,
            ).contains(#[trigger] ferramentas_spec(Some(p))[i]),
{
    lema_filtradas(p.ferramentas@.map_values(|s: String| s@), p.autonomia);
    assert forall|i: int|
        0 <= i < ferramentas_spec(Some(p)).len() implies permitida(
        p.autonomia,
        #[trigger] ferramentas_spec(Some(p))[i],
    ) by {
        if p.ferramentas@.len() == 0 {
            assert(do_barramento_spec(p.autonomia).contains(ferramentas_spec(Some(p))[i]));
        }
    }
}

/// Um papel `cauteloso` nunca enxerga ferramenta que grava.
pub proof fn lei_cauteloso_nao_grava(p: Papel)
    requires
        p.autonomia == Autonomia::Cauteloso,
    ensures
        forall|i: int|
            0 <= i < ferramentas_spec(Some(p)).len() ==> !grava(
                #[trigger] ferramentas_spec(Some(p))[i],
            ),
{
    reveal_strlit("escrever_nota");
    reveal_strlit("escrever_arquivo");
    reveal_strlit("recrutar");
    reveal_strlit("dispensar");
    reveal_strlit("enviar_para");
    reveal_strlit("avisar");
    reveal_strlit("listar_nos");
    reveal_strlit("ler_nota");
    reveal_strlit("listar_arquivos");
    reveal_strlit("ler_arquivo");
    reveal_strlit("perguntar_humano");
    reveal_strlit("concluir");
    lei_papel_nunca_alarga(p);
    let base = do_barramento_spec(Autonomia::Cauteloso);
    assert(base[0][1] == 'n');
    assert(base[1][0] == 'a');
    assert(base[2][0] == 'l');
    assert(base[3][0] == 'l');
    assert(base[4][0] == 'l');
    assert(base[5][0] == 'l');
    assert(base[6][0] == 'p');
    assert(base[7][0] == 'c');
    assert forall|i: int| 0 <= i < ferramentas_spec(Some(p)).len() implies !grava(
        #[trigger] ferramentas_spec(Some(p))[i],
    ) by {
        let f = ferramentas_spec(Some(p))[i];
        assert(permitida(p.autonomia, f));
        if grava(f) {
            assert(f[0] == 'e' && f[1] == 's');
            if base.contains(f) {
                let j = choose|j: int| 0 <= j < base.len() && base[j] == f;
                assert(base[j] == f);
            }
        }
    }
}

/// Só o nível `solto` alcança o `Bash`.
pub proof fn lei_so_solto_roda_comando(a: Autonomia)
    ensures
        nativas_spec(a).contains("Bash"@) <==> a == Autonomia::Solto,
{
    reveal_strlit("Bash");
    reveal_strlit("Read");
    reveal_strlit("Glob");
    reveal_strlit("Grep");
    reveal_strlit("Write");
    reveal_strlit("Edit");
    reveal_strlit("NotebookEdit");
    if a == Autonomia::Solto {
        assert(nativas_spec(a)[6] == "Bash"@);
    } else {
        let n = nativas_spec(a);
        if a == Autonomia::Cauteloso {
            assert(n[0][0] == 'R');
            assert(n[1][0] == 'G');
            assert(n[2][0] == 'G');
        } else {
            assert(n[0][0] == 'R');
            assert(n[1][0] == 'G');
            assert(n[2][0] == 'G');
            assert(n[3][0] == 'W');
            assert(n[4][0] == 'E');
            assert(n[5][0] == 'N');
        }
        assert("Bash"@[0] == 'B');
        if n.contains("Bash"@) {
            let j = choose|j: int| 0 <= j < n.len() && n[j] == "Bash"@;
            assert(n[j][0] == 'B');
        }
    }
}

/// Um nó sem papel não monta time.
pub proof fn lei_sem_papel_nao_monta_time()
    ensures
        forall|i: int|
            0 <= i < ferramentas_spec(None).len() ==> !e_de_time(
                #[trigger] ferramentas_spec(None)[i],
            ),
{
    lema_sem_time(catalogo_spec());
}

proof fn lema_sem_time(fs: Seq<Seq<char>>)
    ensures
        forall|i: int| 0 <= i < sem_time(fs).len() ==> !e_de_time(#[trigger] sem_time(fs)[i]),
    decreases fs.len(),
{
    if fs.len() > 0 {
        lema_sem_time(fs.drop_last());
        let resto = sem_time(fs.drop_last());
        assert forall|i: int| 0 <= i < sem_time(fs).len() implies !e_de_time(
            #[trigger] sem_time(fs)[i],
        ) by {
            if i < resto.len() {
                assert(sem_time(fs)[i] == resto[i]);
            }
        }
    }
}

// ------------------------------------------------------------- a biblioteca

pub const PROMPT_PESQUISADOR: &'static str = "Você é o Pesquisador de um mutirão de agentes. Seu trabalho é achar e entender material: ler os arquivos e notas a que você tem acesso, extrair o que importa e resumir com precisão.\n\nVocê NÃO escreve arquivos nem notas. Quando o resultado precisar ser gravado, mande para quem escreve com enviar_para.\n\nCite sempre de onde tirou cada afirmação — nome do arquivo, trecho. Se o material não responde à pergunta, diga isso em vez de preencher a lacuna. Quando terminar, chame concluir com um resumo do que achou.";

pub const PROMPT_REDATOR: &'static str = "Você é o Redator de um mutirão de agentes. Seu trabalho é transformar material bruto em texto que uma pessoa leia sem esforço.\n\nEscreva em português claro, na voz de quem entende do assunto e respeita o tempo de quem lê. Sem enrolação de abertura, sem resumo do que você vai dizer antes de dizer.\n\nVocê não inventa fato: se faltar informação, pergunte a quem pesquisou com enviar_para, ou a quem está na frente da tela com perguntar_humano. Toda gravação sua passa pela aprovação da pessoa — escreva como se cada arquivo fosse ser lido antes de salvo, porque vai.";

pub const PROMPT_REVISOR: &'static str = "Você é o Revisor de um mutirão de agentes. Seu trabalho é achar o que está errado antes que chegue a quem pediu.\n\nLeia contra a fonte, não contra a sua memória: confira número com número, data com data, cláusula com cláusula. Aponte o problema, onde ele está e o que fazer — nessa ordem, e sem rodeio.\n\nVocê NÃO corrige o texto: quem escreve é o Redator. Mande o que achou com enviar_para. Se estiver tudo certo, diga que está tudo certo — inventar ressalva para parecer útil é o pior que um revisor faz.";

pub const PROMPT_ANALISTA: &'static str = "Você é o Analista de um mutirão de agentes. Seu trabalho é o que exige cálculo e ferramenta: planilha, conversão de formato, conferência de número, extração de dado de arquivo.\n\nVocê pode rodar comandos, e cada comando passa pela aprovação da pessoa — sempre, sem exceção e sem 'não perguntar de novo'. Então escreva comandos que uma pessoa consiga ler e aprovar com segurança: um de cada vez, com o que ele faz dito antes.\n\nMostre a conta, não só o resultado. Um número sem a conta atrás não dá para conferir, e o que não dá para conferir não serve.";

pub const PROMPT_ORGANIZADOR: &'static str = "Você é o Organizador de um mutirão de agentes. Seu trabalho é montar o time e repartir o trabalho — não fazer o trabalho.\n\nAo receber uma tarefa: quebre-a em partes, recrute quem falta com recrutar (o papel vem da biblioteca: Pesquisador, Redator, Revisor, Analista), e mande cada parte para o seu com enviar_para. Recrute o mínimo que resolve: cada agente custa dinheiro, e um time grande demais gasta mais tempo se coordenando que trabalhando.\n\nVocê não escreve o texto nem faz a pesquisa. Junte o que voltou, confira se responde ao que foi pedido, e entregue com concluir. Se alguém do time travar ou devolver coisa fraca, é seu o trabalho de redistribuir.";

/// As ferramentas que o Organizador lista.
pub open spec fn ferramentas_do_organizador() -> Seq<Seq<char>> {
    seq![
        "enviar_para"@,
        "avisar"@,
        "listar_nos"@,
        "ler_nota"@,
        "escrever_nota"@,
        "ler_arquivo"@,
        "listar_arquivos"@,
        "perguntar_humano"@,
        "concluir"@,
        "recrutar"@,
        "dispensar"@,
    ]
}

/// Os papéis que vêm com o app: nome, prompt, ferramentas e autonomia.
pub open spec fn embutidos_spec() -> Seq<(Seq<char>, Seq<char>, Seq<Seq<char>>, Autonomia)> {
    seq![
        ("Pesquisador"@, PROMPT_PESQUISADOR@, Seq::<Seq<char>>::empty(), Autonomia::Cauteloso),
        ("Redator"@, PROMPT_REDATOR@, Seq::<Seq<char>>::empty(), Autonomia::Padrao),
        ("Revisor"@, PROMPT_REVISOR@, Seq::<Seq<char>>::empty(), Autonomia::Cauteloso),
        ("Analista"@, PROMPT_ANALISTA@, Seq::<Seq<char>>::empty(), Autonomia::Solto),
        ("Organizador"@, PROMPT_ORGANIZADOR@, ferramentas_do_organizador(), Autonomia::Padrao),
    ]
}

/// Os papéis que vêm com o app.
pub fn embutidos() -> (r: Vec<(&'static str, &'static str, Vec<&'static str>, Autonomia)>)
    ensures
        r@.map_values(
            |e: (&'static str, &'static str, Vec<&'static str>, Autonomia)|
                (e.0@, e.1@, e.2@.map_values(|s: &str| s@), e.3),
        ) == embutidos_spec(),
{
    let mut org: Vec<&'static str> = Vec::new();
    org.push("enviar_para");
    org.push("avisar");
    org.push("listar_nos");
    org.push("ler_nota");
    org.push("escrever_nota");
    org.push("ler_arquivo");
    org.push("listar_arquivos");
    org.push("perguntar_humano");
    org.push("concluir");
    org.push("recrutar");
    org.push("dispensar");
    assert(org@.map_values(|s: &str| s@) =~= ferramentas_do_organizador());
    let mut r: Vec<(&'static str, &'static str, Vec<&'static str>, Autonomia)> = Vec::new();
    let vazio1: Vec<&'static str> = Vec::new();
    let vazio2: Vec<&'static str> = Vec::new();
    let vazio3: Vec<&'static str> = Vec::new();
    let vazio4: Vec<&'static str> = Vec::new();
    assert(vazio1@.map_values(|s: &str| s@) =~= Seq::<Seq<char>>::empty());
    assert(vazio2@.map_values(|s: &str| s@) =~= Seq::<Seq<char>>::empty());
    assert(vazio3@.map_values(|s: &str| s@) =~= Seq::<Seq<char>>::empty());
    assert(vazio4@.map_values(|s: &str| s@) =~= Seq::<Seq<char>>::empty());
    r.push(("Pesquisador", PROMPT_PESQUISADOR, vazio1, Autonomia::Cauteloso));
    r.push(("Redator", PROMPT_REDATOR, vazio2, Autonomia::Padrao));
    r.push(("Revisor", PROMPT_REVISOR, vazio3, Autonomia::Cauteloso));
    r.push(("Analista", PROMPT_ANALISTA, vazio4, Autonomia::Solto));
    r.push(("Organizador", PROMPT_ORGANIZADOR, org, Autonomia::Padrao));
    assert(r@.map_values(
        |e: (&'static str, &'static str, Vec<&'static str>, Autonomia)|
            (e.0@, e.1@, e.2@.map_values(|s: &str| s@), e.3),
    ) =~= embutidos_spec());
    r
}

/// Um papel da biblioteca, como valores simples: nome, prompt, ferramentas e
/// autonomia.
pub type PapelDaBiblioteca = (Seq<char>, Seq<char>, Seq<Seq<char>>, Autonomia);

/// O que um papel embutido é, em valores simples.
pub open spec fn vista_embutido(e: (&'static str, &'static str, Vec<&'static str>, Autonomia)) -> PapelDaBiblioteca {
    (e.0@, e.1@, e.2@.map_values(|s: &str| s@), e.3)
}

/// Os papéis da biblioteca que ainda não existem, pelo nome, na ordem da
/// biblioteca.
pub open spec fn faltam_spec(es: Seq<PapelDaBiblioteca>, existentes: Seq<Seq<char>>) -> Seq<PapelDaBiblioteca>
    decreases es.len(),
{
    if es.len() == 0 {
        Seq::empty()
    } else {
        let resto = faltam_spec(es.drop_last(), existentes);
        if existentes.contains(es.last().0) {
            resto
        } else {
            resto.push(es.last())
        }
    }
}

/// Os papéis embutidos a semear: os que ainda não existem com o mesmo nome.
/// Semear de novo não duplica nada.
pub fn a_semear(existentes: &Vec<String>) -> (r: Vec<(&'static str, &'static str, Vec<&'static str>, Autonomia)>)
    ensures
        r@.map_values(|e: (&'static str, &'static str, Vec<&'static str>, Autonomia)| vista_embutido(e))
            == faltam_spec(embutidos_spec(), existentes@.map_values(|s: String| s@)),
{
    let ghost ex = existentes@.map_values(|s: String| s@);
    let mut todos = embutidos();
    let ghost es = embutidos_spec();
    assert(todos@.map_values(
        |e: (&'static str, &'static str, Vec<&'static str>, Autonomia)| vista_embutido(e),
    ) =~= es);
    let mut r: Vec<(&'static str, &'static str, Vec<&'static str>, Autonomia)> = Vec::new();
    let ghost mut i: int = 0;
    assert(es.take(0) =~= Seq::<PapelDaBiblioteca>::empty());
    assert(r@.map_values(
        |e: (&'static str, &'static str, Vec<&'static str>, Autonomia)| vista_embutido(e),
    ) =~= Seq::<PapelDaBiblioteca>::empty());
    while todos.len() > 0
        invariant
            es == embutidos_spec(),
            ex == existentes@.map_values(|s: String| s@),
            0 <= i <= es.len(),
            i + todos@.len() == es.len(),
            todos@.map_values(
                |e: (&'static str, &'static str, Vec<&'static str>, Autonomia)| vista_embutido(e),
            ) == es.skip(i),
            r@.map_values(
                |e: (&'static str, &'static str, Vec<&'static str>, Autonomia)| vista_embutido(e),
            ) == faltam_spec(es.take(i), ex),
        decreases todos@.len(),
    {
        let ghost antes = todos@;
        let e = todos.remove(0);
        proof {
            assert(vista_embutido(e) == es[i]) by {
                assert(antes.map_values(
                    |e: (&'static str, &'static str, Vec<&'static str>, Autonomia)| vista_embutido(e),
                )[0] == es.skip(i)[0]);
            }
            assert(es.take(i + 1).drop_last() =~= es.take(i));
            assert(es.take(i + 1).last() == es[i]);
            let am = antes.map_values(
                |e: (&'static str, &'static str, Vec<&'static str>, Autonomia)| vista_embutido(e),
            );
            assert(todos@ =~= antes.remove(0));
            assert(todos@.map_values(
                |e: (&'static str, &'static str, Vec<&'static str>, Autonomia)| vista_embutido(e),
            ) =~= am.drop_first());
            assert(am.drop_first() =~= es.skip(i + 1));
        }
        if !lista_contem(existentes, e.0) {
            let ghost r0 = r@;
            r.push(e);
            proof {
                assert(r@.map_values(
                    |e: (&'static str, &'static str, Vec<&'static str>, Autonomia)| vista_embutido(e),
                ) =~= r0.map_values(
                    |e: (&'static str, &'static str, Vec<&'static str>, Autonomia)| vista_embutido(e),
                ).push(es[i]));
            }
        }
        proof {
            i = i + 1;
        }
    }
    assert(es.take(i) =~= es);
    r
}

/// O que falta de uma parte da biblioteca está no que falta dela inteira.
proof fn lema_faltam_prefixo(es: Seq<PapelDaBiblioteca>, existentes: Seq<Seq<char>>, e: PapelDaBiblioteca)
    requires
        es.len() > 0,
        faltam_spec(es.drop_last(), existentes).contains(e),
    ensures
        faltam_spec(es, existentes).contains(e),
{
    let resto = faltam_spec(es.drop_last(), existentes);
    let k = choose|k: int| 0 <= k < resto.len() && resto[k] == e;
    if !existentes.contains(es.last().0) {
        assert(resto.push(es.last())[k] == e);
    }
}

/// Se cada nome da biblioteca já existia antes ou faltava e foi criado, não
/// falta mais nada.
proof fn lema_nada_falta(es: Seq<PapelDaBiblioteca>, antes: Seq<Seq<char>>, depois: Seq<Seq<char>>)
    requires
        forall|x: Seq<char>| antes.contains(x) ==> #[trigger] depois.contains(x),
        forall|e: PapelDaBiblioteca| #[trigger] faltam_spec(es, antes).contains(e) ==> depois.contains(e.0),
    ensures
        faltam_spec(es, depois).len() == 0,
    decreases es.len(),
{
    if es.len() > 0 {
        assert forall|e: PapelDaBiblioteca|
            #[trigger] faltam_spec(es.drop_last(), antes).contains(e) implies depois.contains(e.0) by {
            lema_faltam_prefixo(es, antes, e);
        }
        lema_nada_falta(es.drop_last(), antes, depois);
        if !antes.contains(es.last().0) {
            let f = faltam_spec(es, antes);
            assert(f.last() == es.last());
            assert(f.contains(es.last()));
        }
    }
}

/// Semear duas vezes não duplica: depois de criar os papéis que faltavam,
/// não falta mais nenhum.
pub proof fn lei_semear_duas_vezes_nao_duplica(existentes: Seq<Seq<char>>)
    ensures
        faltam_spec(
            embutidos_spec(),
            existentes + faltam_spec(embutidos_spec(), existentes).map_values(|e: PapelDaBiblioteca| e.0),
        ).len() == 0,
{
    let f = faltam_spec(embutidos_spec(), existentes);
    let nomes = f.map_values(|e: PapelDaBiblioteca| e.0);
    let depois = existentes + nomes;
    assert forall|x: Seq<char>| existentes.contains(x) implies #[trigger] depois.contains(x) by {
        let k = choose|k: int| 0 <= k < existentes.len() && existentes[k] == x;
        assert(depois[k] == x);
    }
    assert forall|e: PapelDaBiblioteca| #[trigger] f.contains(e) implies depois.contains(e.0) by {
        let k = choose|k: int| 0 <= k < f.len() && f[k] == e;
        assert(nomes[k] == e.0);
        assert(depois[existentes.len() + k] == e.0);
    }
    lema_nada_falta(embutidos_spec(), existentes, depois);
}

// ------------------------------------------------------- servidores de fora

/// Um caractere que pode estar no nome de um servidor de fora: letra ou
/// número ASCII, ou `_`.
pub open spec fn caractere_de_nome(c: char) -> bool {
    ('a' <= c && c <= 'z') || ('A' <= c && c <= 'Z') || ('0' <= c && c <= '9') || c == '_'
}

/// O nome entra num matcher que é uma regex: um ponto, um asterisco ou uma
/// barra vertical ali virariam curinga e abririam buraco na aprovação. Só
/// letras, números e `_`, e nunca vazio.
pub open spec fn nome_de_servidor_ok(nome: Seq<char>) -> bool {
    nome.len() > 0 && forall|i: int| 0 <= i < nome.len() ==> caractere_de_nome(#[trigger] nome[i])
}

pub fn nome_de_servidor_valido(nome: &str) -> (r: bool)
    ensures
        r == nome_de_servidor_ok(nome@),
{
    let s = crate::texto::chars_de(nome);
    if s.len() == 0 {
        return false;
    }
    let mut i: usize = 0;
    while i < s.len()
        invariant
            i <= s@.len(),
            s@ == nome@,
            forall|k: int| 0 <= k < i ==> caractere_de_nome(#[trigger] s@[k]),
        decreases s@.len() - i,
    {
        let c = s[i];
        if !(('a' <= c && c <= 'z') || ('A' <= c && c <= 'Z') || ('0' <= c && c <= '9') || c == '_') {
            return false;
        }
        i = i + 1;
    }
    true
}

/// A frase de um nome de servidor recusado.
pub open spec fn frase_nome_de_servidor(nome: Seq<char>) -> Seq<char> {
    "o servidor \""@ + nome + "\" precisa de um nome só com letras, números e _"@
}

/// Os servidores de fora de um papel passam se todos têm nome válido; o
/// primeiro que não tem é recusado.
pub fn checar_servidores(servidores: &Vec<ServidorMcp>) -> (r: Result<(), crate::erro::Erro>)
    ensures
        (forall|i: int| 0 <= i < servidores@.len() ==> nome_de_servidor_ok(#[trigger] servidores@[i].nome@)) <==> r is Ok,
        r is Err ==> (r matches Err(crate::erro::Erro::Invalido(m)) && exists|i: int|
            0 <= i < servidores@.len() && !nome_de_servidor_ok(#[trigger] servidores@[i].nome@)
                && (forall|k: int| 0 <= k < i ==> nome_de_servidor_ok(servidores@[k].nome@)) && m@
                == frase_nome_de_servidor(servidores@[i].nome@)),
{
    let mut i: usize = 0;
    while i < servidores.len()
        invariant
            i <= servidores@.len(),
            forall|k: int| 0 <= k < i ==> nome_de_servidor_ok(#[trigger] servidores@[k].nome@),
        decreases servidores@.len() - i,
    {
        if !nome_de_servidor_valido(servidores[i].nome.as_str()) {
            let mut v: Vec<char> = Vec::new();
            crate::texto::anexar(&mut v, "o servidor \"");
            crate::texto::anexar(&mut v, servidores[i].nome.as_str());
            crate::texto::anexar(&mut v, "\" precisa de um nome só com letras, números e _");
            return Err(crate::erro::invalido_de(&v));
        }
        i = i + 1;
    }
    Ok(())
}

/// Do `padrao` para cima, o barramento dá as duas ferramentas que gravam, e
/// o que se soma ao `cauteloso` é exatamente o que grava.
pub proof fn lei_quem_nao_e_cauteloso_grava(a: Autonomia, f: Seq<char>)
    requires
        a != Autonomia::Cauteloso,
    ensures
        do_barramento_spec(a).contains("escrever_nota"@),
        do_barramento_spec(a).contains("escrever_arquivo"@),
        do_barramento_spec(a).contains(f) <==> do_barramento_spec(Autonomia::Cauteloso).contains(f)
            || crate::ferramentas::grava(f),
{
    let l = do_barramento_spec(a);
    let c = do_barramento_spec(Autonomia::Cauteloso);
    assert(l[8] == "escrever_nota"@);
    assert(l[9] == "escrever_arquivo"@);
    assert(l =~= c + seq!["escrever_nota"@, "escrever_arquivo"@]);
    if l.contains(f) {
        let k = choose|k: int| 0 <= k < l.len() && l[k] == f;
        if k < 8 {
            assert(c[k] == f);
        }
    }
    if c.contains(f) {
        let k = choose|k: int| 0 <= k < c.len() && c[k] == f;
        assert(l[k] == f);
    }
}

} // verus!
